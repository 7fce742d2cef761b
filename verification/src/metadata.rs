//! What a package can declare in the `buildkit` table of its manifest.

use vstd::prelude::*;

verus! {

/// How the library is made available to the build.
#[derive(Clone, Copy, Debug, PartialEq, Eq, Structural)]
pub enum BuildKitMode {
    /// Probe for the installed library with pkg-config.
    PkgConfig,
    /// Probe for the installed library with vcpkg.
    Vcpkg,
    /// Compile the library from vendored source.
    VendoredBuild,
}

/// The versions of a library that a pkg-config probe accepts.
#[derive(Clone, Debug, PartialEq, Eq)]
pub enum PkgConfigVersionReq {
    /// From `min` up to, but not including, `max`.
    Range { min: String, max: String },
    /// At least `min`.
    Min { min: String },
    /// No newer than `max`.
    Max { max: String },
    /// Exactly `exact`.
    Exact { exact: String },
}

/// The mathematical value of a [`PkgConfigVersionReq`].
pub enum PkgConfigVersionReqView {
    Range { min: Seq<char>, max: Seq<char> },
    Min { min: Seq<char> },
    Max { max: Seq<char> },
    Exact { exact: Seq<char> },
}

impl View for PkgConfigVersionReq {
    type V = PkgConfigVersionReqView;

    open spec fn view(&self) -> PkgConfigVersionReqView {
        match *self {
            PkgConfigVersionReq::Range { min, max } => {
                PkgConfigVersionReqView::Range { min: min@, max: max@ }
            },
            PkgConfigVersionReq::Min { min } => PkgConfigVersionReqView::Min { min: min@ },
            PkgConfigVersionReq::Max { max } => PkgConfigVersionReqView::Max { max: max@ },
            PkgConfigVersionReq::Exact { exact } => {
                PkgConfigVersionReqView::Exact { exact: exact@ }
            },
        }
    }
}

/// What a pkg-config probe is to look for.
#[derive(Clone, Debug, PartialEq, Eq)]
pub struct PkgConfigRequirement {
    /// The library to probe for, handed to pkg-config as it is written:
    /// `libcurl` for libcurl.
    pub name: String,
    /// The versions that the probe accepts; any version where there is none.
    pub version_req: Option<PkgConfigVersionReq>,
}

/// The mathematical value of a [`PkgConfigRequirement`].
pub struct PkgConfigRequirementView {
    pub name: Seq<char>,
    pub version_req: Option<PkgConfigVersionReqView>,
}

impl View for PkgConfigRequirement {
    type V = PkgConfigRequirementView;

    open spec fn view(&self) -> PkgConfigRequirementView {
        PkgConfigRequirementView {
            name: self.name@,
            version_req: match self.version_req {
                Some(version_req) => Some(version_req@),
                None => None,
            },
        }
    }
}

/// The file names of a library whose files are not named after its package.
#[derive(Clone, Debug, PartialEq, Eq)]
pub struct VcpkgLibName {
    /// The stem of `<name>.lib`.
    pub lib_name: String,
    /// The stem of `<name>.dll`.
    pub dll_name: String,
}

/// The mathematical value of a [`VcpkgLibName`].
pub struct VcpkgLibNameView {
    pub lib_name: Seq<char>,
    pub dll_name: Seq<char>,
}

impl View for VcpkgLibName {
    type V = VcpkgLibNameView;

    open spec fn view(&self) -> VcpkgLibNameView {
        VcpkgLibNameView { lib_name: self.lib_name@, dll_name: self.dll_name@ }
    }
}

/// What a vcpkg probe is to look for.
#[derive(Clone, Debug, PartialEq, Eq)]
pub struct VcpkgRequirement {
    /// The name of the vcpkg package.
    pub name: String,
    /// The libraries to look for where their names differ from the package's,
    /// in the order in which they were declared.
    pub libs: Vec<VcpkgLibName>,
}

/// The mathematical value of a [`VcpkgRequirement`].
pub struct VcpkgRequirementView {
    pub name: Seq<char>,
    pub libs: Seq<VcpkgLibNameView>,
}

impl View for VcpkgRequirement {
    type V = VcpkgRequirementView;

    open spec fn view(&self) -> VcpkgRequirementView {
        VcpkgRequirementView {
            name: self.name@,
            libs: Seq::new(self.libs@.len(), |i: int| self.libs@[i]@),
        }
    }
}

/// Where the source of a vendored build comes from.
#[derive(Clone, Debug, PartialEq, Eq)]
pub enum VendoredSource {
    /// An archive to download, with the hash of its content.
    RemoteTarball { url: String, hash: String },
    /// A revision of a git repository, with the hash of its content.
    GitRepo { url: String, git_ref: String, hash: String },
    /// A directory of the package, relative to its manifest.
    CratePath { relative_path: String },
    /// A directory of the machine that runs the build. A manifest cannot
    /// declare one, as it would hold on no other machine: it is set at build
    /// time only.
    SystemPath { path: String },
}

/// The mathematical value of a [`VendoredSource`].
pub enum VendoredSourceView {
    RemoteTarball { url: Seq<char>, hash: Seq<char> },
    GitRepo { url: Seq<char>, git_ref: Seq<char>, hash: Seq<char> },
    CratePath { relative_path: Seq<char> },
    SystemPath { path: Seq<char> },
}

impl View for VendoredSource {
    type V = VendoredSourceView;

    open spec fn view(&self) -> VendoredSourceView {
        match *self {
            VendoredSource::RemoteTarball { url, hash } => {
                VendoredSourceView::RemoteTarball { url: url@, hash: hash@ }
            },
            VendoredSource::GitRepo { url, git_ref, hash } => {
                VendoredSourceView::GitRepo { url: url@, git_ref: git_ref@, hash: hash@ }
            },
            VendoredSource::CratePath { relative_path } => {
                VendoredSourceView::CratePath { relative_path: relative_path@ }
            },
            VendoredSource::SystemPath { path } => VendoredSourceView::SystemPath { path: path@ },
        }
    }
}

/// Everything that the `buildkit` table of a package declares. Any of the
/// three declarations may be missing, whatever the default mode is: whether
/// the one that a build needs is there shows when the build is run.
#[derive(Clone, Debug, PartialEq, Eq)]
pub struct BuildKitMetadata {
    pub pkg_config: Option<PkgConfigRequirement>,
    pub vcpkg: Option<VcpkgRequirement>,
    pub vendored_source: Option<VendoredSource>,
    pub default_mode: BuildKitMode,
}

/// The mathematical value of a [`BuildKitMetadata`].
pub struct BuildKitMetadataView {
    pub pkg_config: Option<PkgConfigRequirementView>,
    pub vcpkg: Option<VcpkgRequirementView>,
    pub vendored_source: Option<VendoredSourceView>,
    pub default_mode: BuildKitMode,
}

impl View for BuildKitMetadata {
    type V = BuildKitMetadataView;

    open spec fn view(&self) -> BuildKitMetadataView {
        BuildKitMetadataView {
            pkg_config: match self.pkg_config {
                Some(requirement) => Some(requirement@),
                None => None,
            },
            vcpkg: match self.vcpkg {
                Some(requirement) => Some(requirement@),
                None => None,
            },
            vendored_source: match self.vendored_source {
                Some(source) => Some(source@),
                None => None,
            },
            default_mode: self.default_mode,
        }
    }
}

} // verus!
