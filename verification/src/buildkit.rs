//! The session of one build: the configuration of the package with what the
//! environment said, the mode that follows from them, and the build itself.

use vstd::prelude::*;
use vstd::string::*;
use camino::Utf8PathBuf;
use crate::context::{source_location, VendoredBuildContext};
use crate::decode::{decode_metadata, decoded_metadata, DecodeError, DecodeErrorView, Problem};
use crate::document::{find, Document, Found, Lookup};
use crate::error::{EnvVar, Error, ErrorKind, ErrorKindView, Requirement};
use crate::manifest::{
    find_package,
    section_of,
    sole_match,
    Environment,
    EnvironmentView,
    Package,
};
use crate::metadata::{
    BuildKitMetadata,
    BuildKitMetadataView,
    BuildKitMode,
    VendoredSource,
    VendoredSourceView,
};
use crate::path::{path_from, path_text};
use crate::probe::{try_pkg_config, try_vcpkg, PkgConfigProbe, VcpkgProbe};
use crate::text::{ends_with, has_suffix, text_of};

verus! {

/// The mode that a build runs in.
///
/// A default of `VendoredBuild` is final, and the target is not looked at.
/// Otherwise a target of the MSVC toolchain probes with vcpkg and any other
/// target with pkg-config, MinGW among them; no target at all is an error.
pub open spec fn resolved_mode(default_mode: BuildKitMode, target: Option<Seq<char>>) -> Result<
    BuildKitMode,
    ErrorKindView,
> {
    if default_mode == BuildKitMode::VendoredBuild {
        Ok(BuildKitMode::VendoredBuild)
    } else {
        match target {
            None => Err(ErrorKindView::MissingEnvVar(EnvVar::Target)),
            Some(triple) => if ends_with(triple, "-windows-msvc"@) {
                Ok(BuildKitMode::Vcpkg)
            } else {
                Ok(BuildKitMode::PkgConfig)
            },
        }
    }
}

/// What is left to do when [`BuildKit::build`] has returned.
pub enum NextStep {
    /// Nothing: the vendored build ran and succeeded.
    Done,
    /// Print the line of the probe, run it, and hand what it found to
    /// [`crate::probe::conclude_pkg_config`].
    ProbePkgConfig(PkgConfigProbe),
    /// Print the line of the probe, run it, and hand what it found to
    /// [`crate::probe::conclude_vcpkg`].
    ProbeVcpkg(VcpkgProbe),
}

/// The configuration of the package being built, with what the build
/// environment said when it was loaded.
pub struct BuildKit {
    metadata: BuildKitMetadata,
    manifest_dir: Utf8PathBuf,
    target: Option<String>,
}

/// The mathematical value of a [`BuildKit`].
pub struct BuildKitView {
    /// What the package declares.
    pub metadata: BuildKitMetadataView,
    /// The directory that holds the manifest of the package.
    pub manifest_dir: Seq<char>,
    /// The target triple of the build, where the environment names one.
    pub target: Option<Seq<char>>,
}

impl View for BuildKit {
    type V = BuildKitView;

    closed spec fn view(&self) -> BuildKitView {
        BuildKitView {
            metadata: self.metadata@,
            manifest_dir: path_text(self.manifest_dir),
            target: text_of(self.target),
        }
    }
}

/// The session that the environment and the packages of the manifest add up
/// to.
///
/// The environment must name the directory of the manifest, the name of the
/// package and its version. Exactly one package must have this name and
/// version, its metadata must hold a `buildkit` table, once, and the table
/// must decode. What fails first, in this order, gives the error.
pub open spec fn loaded(environment: EnvironmentView, packages: Seq<Package>) -> Result<
    BuildKitView,
    ErrorKindView,
> {
    match (environment.manifest_dir, environment.package_name, environment.package_version) {
        (None, _, _) => Err(ErrorKindView::MissingEnvVar(EnvVar::ManifestDir)),
        (Some(_), None, _) => Err(ErrorKindView::MissingEnvVar(EnvVar::PackageName)),
        (Some(_), Some(_), None) => Err(ErrorKindView::MissingEnvVar(EnvVar::PackageVersion)),
        (Some(manifest_dir), Some(name), Some(version)) => match sole_match(
            packages,
            name,
            version,
        ) {
            None => Err(ErrorKindView::AmbiguousOrMissingPackage { name, version }),
            Some(index) => match section_of(packages[index].metadata) {
                Found::Absent => Err(ErrorKindView::MissingConfigSection { name, version }),
                Found::Repeated => Err(
                    ErrorKindView::MalformedConfig(
                        DecodeErrorView::here(Problem::RepeatedField),
                    ),
                ),
                Found::Once(section) => match decoded_metadata(section) {
                    Err(error) => Err(ErrorKindView::MalformedConfig(error)),
                    Ok(metadata) => Ok(
                        BuildKitView { metadata, manifest_dir, target: environment.target },
                    ),
                },
            },
        },
    }
}

/// Whether `result` is what a vendored build comes to when `try_vendor` is
/// its handler and `location` the place of its source: the handler was called
/// on a context that names this place, and what it returned is handed on, a
/// failure as the handler made it.
pub open spec fn vendored_outcome<F: FnOnce(VendoredBuildContext) -> Result<(), Error>>(
    try_vendor: F,
    location: Seq<char>,
    result: Result<NextStep, Error>,
) -> bool {
    exists|context: VendoredBuildContext|
        #![trigger context.source_text()]
        context.source_text() == location && match result {
            Ok(step) => step is Done && call_ensures(try_vendor, (context,), Ok(())),
            Err(error) => call_ensures(try_vendor, (context,), Err(error)),
        }
}

/// Whether `try_vendor` can be called on every context that a vendored
/// build of `kit` would hand to it. Where `kit` declares no vendored source
/// the handler is never called, and nothing is asked of it.
pub open spec fn handler_ready<F: FnOnce(VendoredBuildContext) -> Result<(), Error>>(
    kit: BuildKitView,
    try_vendor: F,
) -> bool {
    match kit.metadata.vendored_source {
        Some(source) => forall|context: VendoredBuildContext|
            #![trigger context.source_text()]
            context.source_text() == source_location(kit.manifest_dir, source) ==> call_requires(
                try_vendor,
                (context,),
            ),
        None => true,
    }
}

/// Whether `result` is what a build of `kit` in the mode `mode` comes to.
///
/// A vendored build is what the handler makes of the declared source. A
/// probe is handed back, prepared for the declared requirement. A mode whose
/// declaration is missing is an error, whatever else is declared: no mode
/// stands in for another.
pub open spec fn dispatched<F: FnOnce(VendoredBuildContext) -> Result<(), Error>>(
    kit: BuildKitView,
    mode: BuildKitMode,
    try_vendor: F,
    result: Result<NextStep, Error>,
) -> bool {
    match mode {
        BuildKitMode::VendoredBuild => match kit.metadata.vendored_source {
            None => result matches Err(error) && error@ == ErrorKindView::MissingRequirement(
                Requirement::VendoredSource,
            ),
            Some(source) => vendored_outcome(
                try_vendor,
                source_location(kit.manifest_dir, source),
                result,
            ),
        },
        BuildKitMode::PkgConfig => match kit.metadata.pkg_config {
            None => result matches Err(error) && error@ == ErrorKindView::MissingRequirement(
                Requirement::PkgConfig,
            ),
            Some(requirement) => result matches Ok(NextStep::ProbePkgConfig(probe))
                && probe.is_for(requirement),
        },
        BuildKitMode::Vcpkg => match kit.metadata.vcpkg {
            None => result matches Err(error) && error@ == ErrorKindView::MissingRequirement(
                Requirement::Vcpkg,
            ),
            Some(requirement) => result matches Ok(NextStep::ProbeVcpkg(probe)) && probe.is_for(
                requirement,
            ),
        },
    }
}

impl BuildKit {
    /// The session of a package that declares `metadata`, whose manifest lies
    /// in `manifest_dir`, for a build whose environment names `target`.
    pub fn new(metadata: BuildKitMetadata, manifest_dir: String, target: Option<String>) -> (kit:
        BuildKit)
        ensures
            kit@.metadata == metadata@,
            kit@.manifest_dir == manifest_dir@,
            kit@.target == text_of(target),
    {
        BuildKit { metadata, manifest_dir: path_from(manifest_dir), target }
    }

    /// Collects the configuration of the package being built from the
    /// `buildkit` table of its metadata.
    ///
    /// `environment` is what the build environment says and `packages` what
    /// the manifest reader found in the manifest of the package, read without
    /// its dependencies.
    pub fn from_metadata(environment: &Environment, packages: &Vec<Package>) -> (result: Result<
        BuildKit,
        Error,
    >)
        ensures
            match result {
                Ok(kit) => loaded(environment@, packages@) == Ok::<BuildKitView, ErrorKindView>(
                    kit@,
                ),
                Err(error) => loaded(environment@, packages@) == Err::<
                    BuildKitView,
                    ErrorKindView,
                >(error@),
            },
    {
        let manifest_dir = match &environment.manifest_dir {
            Some(dir) => dir,
            None => {
                return Err(Error(ErrorKind::MissingEnvVar(EnvVar::ManifestDir)));
            },
        };
        let name = match &environment.package_name {
            Some(name) => name,
            None => {
                return Err(Error(ErrorKind::MissingEnvVar(EnvVar::PackageName)));
            },
        };
        let version = match &environment.package_version {
            Some(version) => version,
            None => {
                return Err(Error(ErrorKind::MissingEnvVar(EnvVar::PackageVersion)));
            },
        };
        let package = match find_package(packages, name.as_str(), version.as_str()) {
            Some(package) => package,
            None => {
                return Err(
                    Error(
                        ErrorKind::AmbiguousOrMissingPackage {
                            name: name.clone(),
                            version: version.clone(),
                        },
                    ),
                );
            },
        };
        let section = match &package.metadata {
            Document::Table(entries) => find(entries, "buildkit"),
            _ => Lookup::Absent,
        };
        match section {
            Lookup::Absent => Err(
                Error(
                    ErrorKind::MissingConfigSection {
                        name: name.clone(),
                        version: version.clone(),
                    },
                ),
            ),
            Lookup::Repeated => Err(
                Error(ErrorKind::MalformedConfig(DecodeError::here(Problem::RepeatedField))),
            ),
            Lookup::Once(section) => match decode_metadata(section) {
                Err(error) => Err(Error(ErrorKind::MalformedConfig(error))),
                Ok(metadata) => Ok(
                    BuildKit {
                        metadata,
                        manifest_dir: path_from(manifest_dir.clone()),
                        target: environment.target.clone(),
                    },
                ),
            },
        }
    }

    /// The same session with the vendored source taken from `path`, a
    /// directory of the machine that runs the build, in place of what the
    /// manifest declares. This is how a build is pointed at a source tree at
    /// build time; the rest of the configuration stays as it is.
    pub fn with_system_path(self, path: String) -> (kit: BuildKit)
        ensures
            kit@.metadata.vendored_source == Some(VendoredSourceView::SystemPath { path: path@ }),
            kit@.metadata.pkg_config == self@.metadata.pkg_config,
            kit@.metadata.vcpkg == self@.metadata.vcpkg,
            kit@.metadata.default_mode == self@.metadata.default_mode,
            kit@.manifest_dir == self@.manifest_dir,
            kit@.target == self@.target,
    {
        let BuildKit { metadata, manifest_dir, target } = self;
        let BuildKitMetadata { pkg_config, vcpkg, vendored_source: _, default_mode } = metadata;
        BuildKit {
            metadata: BuildKitMetadata {
                pkg_config,
                vcpkg,
                vendored_source: Some(VendoredSource::SystemPath { path }),
                default_mode,
            },
            manifest_dir,
            target,
        }
    }

    /// Gets the mode we're going to build in.
    pub fn mode(&self) -> (result: Result<BuildKitMode, Error>)
        ensures
            result matches Ok(mode) ==> resolved_mode(self@.metadata.default_mode, self@.target)
                == Ok::<BuildKitMode, ErrorKindView>(mode),
            result matches Err(error) ==> resolved_mode(
                self@.metadata.default_mode,
                self@.target,
            ) == Err::<BuildKitMode, ErrorKindView>(error@),
            self@.metadata.default_mode == BuildKitMode::VendoredBuild ==> (result matches Ok(mode)
                && mode == BuildKitMode::VendoredBuild),
            self@.metadata.default_mode != BuildKitMode::VendoredBuild ==> match self@.target {
                None => result matches Err(error) && error@ == ErrorKindView::MissingEnvVar(
                    EnvVar::Target,
                ),
                Some(triple) => result matches Ok(mode) && mode == if ends_with(
                    triple,
                    "-windows-msvc"@,
                ) {
                    BuildKitMode::Vcpkg
                } else {
                    BuildKitMode::PkgConfig
                },
            },
    {
        if let BuildKitMode::VendoredBuild = self.metadata.default_mode {
            return Ok(BuildKitMode::VendoredBuild);
        }
        match &self.target {
            None => Err(Error(ErrorKind::MissingEnvVar(EnvVar::Target))),
            Some(triple) => {
                if has_suffix(triple.as_str(), "-windows-msvc") {
                    Ok(BuildKitMode::Vcpkg)
                } else {
                    Ok(BuildKitMode::PkgConfig)
                }
            },
        }
    }

    /// Runs the build in the mode `mode`.
    ///
    /// In a vendored build `try_vendor` is called, once, on the context of the
    /// declared source, and what it returns is the result. In the two other
    /// modes the probe for the declared requirement is prepared and handed
    /// back for the caller to run. A mode whose declaration is missing is an
    /// error: `try_vendor` is then not called, and no other mode is tried in
    /// its place.
    pub fn dispatch<F>(&self, mode: BuildKitMode, try_vendor: F) -> (result: Result<
        NextStep,
        Error,
    >) where
        F: FnOnce(VendoredBuildContext) -> Result<(), Error>,

        requires
            mode == BuildKitMode::VendoredBuild ==> handler_ready(self@, try_vendor),
        ensures
            dispatched(self@, mode, try_vendor, result),
    {
        match mode {
            BuildKitMode::VendoredBuild => {
                match &self.metadata.vendored_source {
                    None => Err(Error(ErrorKind::MissingRequirement(Requirement::VendoredSource))),
                    Some(source) => {
                        let context = VendoredBuildContext::new(source, &self.manifest_dir);
                        let ghost handed = context;
                        let outcome = try_vendor(context);
                        match outcome {
                            Ok(done) => {
                                proof {
                                    assert(done == ());
                                    assert(call_ensures(try_vendor, (handed,), Ok(())));
                                }
                                Ok(NextStep::Done)
                            },
                            Err(error) => Err(error),
                        }
                    },
                }
            },
            BuildKitMode::PkgConfig => {
                match &self.metadata.pkg_config {
                    None => Err(Error(ErrorKind::MissingRequirement(Requirement::PkgConfig))),
                    Some(requirement) => Ok(NextStep::ProbePkgConfig(try_pkg_config(requirement))),
                }
            },
            BuildKitMode::Vcpkg => {
                match &self.metadata.vcpkg {
                    None => Err(Error(ErrorKind::MissingRequirement(Requirement::Vcpkg))),
                    Some(requirement) => Ok(NextStep::ProbeVcpkg(try_vcpkg(requirement))),
                }
            },
        }
    }

    /// Builds the library.
    ///
    /// The mode is resolved, and the build runs in it as [`BuildKit::dispatch`]
    /// has it. A mode that cannot be resolved is an error, and `try_vendor`
    /// is then not called.
    ///
    /// The `try_vendor` closure is for building from vendored source if the
    /// `vendored-source` section is specified.
    pub fn build<F>(&self, try_vendor: F) -> (result: Result<NextStep, Error>) where
        F: FnOnce(VendoredBuildContext) -> Result<(), Error>,

        requires
            resolved_mode(self@.metadata.default_mode, self@.target) == Ok::<
                BuildKitMode,
                ErrorKindView,
            >(BuildKitMode::VendoredBuild) ==> handler_ready(self@, try_vendor),
        ensures
            match resolved_mode(self@.metadata.default_mode, self@.target) {
                Err(kind) => result matches Err(error) && error@ == kind,
                Ok(mode) => dispatched(self@, mode, try_vendor, result),
            },
    {
        match self.mode() {
            Ok(mode) => self.dispatch(mode, try_vendor),
            Err(error) => Err(error),
        }
    }
}

} // verus!
