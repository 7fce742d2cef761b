//! What can go wrong between loading the configuration and the end of a build.

use vstd::prelude::*;
use vstd::string::*;
use crate::decode::{described, DecodeError, DecodeErrorView};

verus! {

/// A variable of the build environment that the library depends on.
#[derive(Clone, Copy, Debug, PartialEq, Eq, Structural)]
pub enum EnvVar {
    /// The directory that holds the manifest of the package being built.
    ManifestDir,
    /// The name of the package being built.
    PackageName,
    /// The version of the package being built.
    PackageVersion,
    /// The target triple that the build is for.
    Target,
}

impl EnvVar {
    /// The name under which the variable stands in the environment.
    pub open spec fn key(self) -> Seq<char> {
        match self {
            EnvVar::ManifestDir => "CARGO_MANIFEST_DIR"@,
            EnvVar::PackageName => "CARGO_PKG_NAME"@,
            EnvVar::PackageVersion => "CARGO_PKG_VERSION"@,
            EnvVar::Target => "TARGET"@,
        }
    }

    /// The name under which the variable stands in the environment.
    pub fn name(self) -> (name: &'static str)
        ensures
            name@ == self.key(),
    {
        match self {
            EnvVar::ManifestDir => "CARGO_MANIFEST_DIR",
            EnvVar::PackageName => "CARGO_PKG_NAME",
            EnvVar::PackageVersion => "CARGO_PKG_VERSION",
            EnvVar::Target => "TARGET",
        }
    }
}

/// A declaration of the configuration that a build mode cannot do without.
#[derive(Clone, Copy, Debug, PartialEq, Eq, Structural)]
pub enum Requirement {
    /// `vendored-source`, needed by a vendored build.
    VendoredSource,
    /// `pkg-config`, needed by a pkg-config probe.
    PkgConfig,
    /// `vcpkg`, needed by a vcpkg probe.
    Vcpkg,
}

/// The tool behind a probe.
#[derive(Clone, Copy, Debug, PartialEq, Eq, Structural)]
pub enum Prober {
    PkgConfig,
    Vcpkg,
}

/// The kinds of failure, each with what tells one occurrence from another.
#[derive(Clone, Debug, PartialEq, Eq)]
pub enum ErrorKind {
    /// The manifest could not be read; the reader's own words.
    CargoMetadata(String),
    /// Not exactly one package of the manifest has this name and version.
    AmbiguousOrMissingPackage { name: String, version: String },
    /// The package declares no `buildkit` table.
    MissingConfigSection { name: String, version: String },
    /// The `buildkit` table of the package could not be decoded.
    MalformedConfig(DecodeError),
    /// A variable of the build environment is not set.
    MissingEnvVar(EnvVar),
    /// The chosen build mode lacks its declaration.
    MissingRequirement(Requirement),
    /// A probe ran and failed; the prober's own words.
    ProbeFailed(Prober, String),
    /// The vendored build failed; the handler's own words.
    Custom(String),
}

/// The mathematical value of an [`ErrorKind`].
pub enum ErrorKindView {
    CargoMetadata(Seq<char>),
    AmbiguousOrMissingPackage { name: Seq<char>, version: Seq<char> },
    MissingConfigSection { name: Seq<char>, version: Seq<char> },
    MalformedConfig(DecodeErrorView),
    MissingEnvVar(EnvVar),
    MissingRequirement(Requirement),
    ProbeFailed(Prober, Seq<char>),
    Custom(Seq<char>),
}

impl View for ErrorKind {
    type V = ErrorKindView;

    open spec fn view(&self) -> ErrorKindView {
        match *self {
            ErrorKind::CargoMetadata(details) => ErrorKindView::CargoMetadata(details@),
            ErrorKind::AmbiguousOrMissingPackage { name, version } => {
                ErrorKindView::AmbiguousOrMissingPackage { name: name@, version: version@ }
            },
            ErrorKind::MissingConfigSection { name, version } => {
                ErrorKindView::MissingConfigSection { name: name@, version: version@ }
            },
            ErrorKind::MalformedConfig(error) => ErrorKindView::MalformedConfig(error@),
            ErrorKind::MissingEnvVar(var) => ErrorKindView::MissingEnvVar(var),
            ErrorKind::MissingRequirement(requirement) => {
                ErrorKindView::MissingRequirement(requirement)
            },
            ErrorKind::ProbeFailed(prober, details) => ErrorKindView::ProbeFailed(prober, details@),
            ErrorKind::Custom(message) => ErrorKindView::Custom(message@),
        }
    }
}

/// A failure as it is written for a reader.
pub open spec fn message_of(kind: ErrorKindView) -> Seq<char> {
    match kind {
        ErrorKindView::CargoMetadata(details) => "Failed to parse cargo metadata: "@ + details,
        ErrorKindView::AmbiguousOrMissingPackage { name, version } => {
            "Failed to find in cargo metadata output: exactly one package "@ + name + "@"@
                + version
        },
        ErrorKindView::MissingConfigSection { name, version } => {
            "Failed to find in cargo metadata output: metadata.buildkit for "@ + name + "@"@
                + version
        },
        ErrorKindView::MalformedConfig(error) => {
            "Failed to decode `package.metadata.buildkit`: "@ + described(error)
        },
        ErrorKindView::MissingEnvVar(var) => {
            "Failed to get env var `"@ + var.key() + "`: environment variable not found"@
        },
        ErrorKindView::MissingRequirement(Requirement::VendoredSource) => {
            "vendored mode is set but no vendored source specified"@
        },
        ErrorKindView::MissingRequirement(Requirement::PkgConfig) => {
            "pkg-config mode is set but no pkg-config requirement specified"@
        },
        ErrorKindView::MissingRequirement(Requirement::Vcpkg) => {
            "vcpkg mode is set but no vcpkg requirement specified"@
        },
        ErrorKindView::ProbeFailed(Prober::PkgConfig, details) => {
            "pkg-config failed to probe: "@ + details
        },
        ErrorKindView::ProbeFailed(Prober::Vcpkg, details) => "vcpkg failed to probe: "@ + details,
        ErrorKindView::Custom(message) => message,
    }
}

/// A failure of the library, or of the vendored build that it ran.
#[derive(Clone, Debug, PartialEq, Eq)]
pub struct Error(pub ErrorKind);

impl View for Error {
    type V = ErrorKindView;

    open spec fn view(&self) -> ErrorKindView {
        self.0@
    }
}

impl Error {
    /// An error of the caller's own making, for a vendored build that failed.
    pub fn custom(message: String) -> (error: Error)
        ensures
            error@ == ErrorKindView::Custom(message@),
    {
        Error(ErrorKind::Custom(message))
    }

    /// The failure of the manifest reader, in the reader's words.
    pub fn cargo_metadata(details: String) -> (error: Error)
        ensures
            error@ == ErrorKindView::CargoMetadata(details@),
    {
        Error(ErrorKind::CargoMetadata(details))
    }

    /// The failure, written for a reader. The words of a prober, of the
    /// manifest reader and of the handler of a vendored build are handed on as
    /// they are.
    pub fn message(&self) -> (text: String)
        ensures
            text@ == message_of(self@),
    {
        match &self.0 {
            ErrorKind::CargoMetadata(details) => {
                let mut text = String::from_str("Failed to parse cargo metadata: ");
                text.append(details.as_str());
                text
            },
            ErrorKind::AmbiguousOrMissingPackage { name, version } => {
                let mut text = String::from_str(
                    "Failed to find in cargo metadata output: exactly one package ",
                );
                text.append(name.as_str());
                text.append("@");
                text.append(version.as_str());
                text
            },
            ErrorKind::MissingConfigSection { name, version } => {
                let mut text = String::from_str(
                    "Failed to find in cargo metadata output: metadata.buildkit for ",
                );
                text.append(name.as_str());
                text.append("@");
                text.append(version.as_str());
                text
            },
            ErrorKind::MalformedConfig(error) => {
                let mut text = String::from_str("Failed to decode `package.metadata.buildkit`: ");
                let details = error.message();
                text.append(details.as_str());
                text
            },
            ErrorKind::MissingEnvVar(var) => {
                let mut text = String::from_str("Failed to get env var `");
                text.append(var.name());
                text.append("`: environment variable not found");
                text
            },
            ErrorKind::MissingRequirement(Requirement::VendoredSource) => String::from_str(
                "vendored mode is set but no vendored source specified",
            ),
            ErrorKind::MissingRequirement(Requirement::PkgConfig) => String::from_str(
                "pkg-config mode is set but no pkg-config requirement specified",
            ),
            ErrorKind::MissingRequirement(Requirement::Vcpkg) => String::from_str(
                "vcpkg mode is set but no vcpkg requirement specified",
            ),
            ErrorKind::ProbeFailed(Prober::PkgConfig, details) => {
                let mut text = String::from_str("pkg-config failed to probe: ");
                text.append(details.as_str());
                text
            },
            ErrorKind::ProbeFailed(Prober::Vcpkg, details) => {
                let mut text = String::from_str("vcpkg failed to probe: ");
                text.append(details.as_str());
                text
            },
            ErrorKind::Custom(message) => message.clone(),
        }
    }

    /// What kind of failure this is.
    pub fn kind(&self) -> (kind: &ErrorKind)
        ensures
            kind@ == self@,
    {
        &self.0
    }
}

} // verus!
