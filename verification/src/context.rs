//! What the handler of a vendored build is given to work with.

use vstd::prelude::*;
use vstd::string::*;
use camino::Utf8PathBuf;
use crate::metadata::{VendoredSource, VendoredSourceView};
use crate::path::{joined, path_from, path_join, path_text};

verus! {

/// Where the source of a vendored build lies on this machine, for a package
/// whose manifest lies in `manifest_dir`.
///
/// A directory of the package is taken relative to the manifest; a directory
/// of the machine is taken as it is written. A source that has to be fetched
/// lies where the fetch is expected to have put it before the build runs:
/// under `vendor` beside the manifest, in a directory named by the hash of
/// its content.
pub open spec fn source_location(manifest_dir: Seq<char>, source: VendoredSourceView) -> Seq<
    char,
> {
    match source {
        VendoredSourceView::RemoteTarball { url, hash } => joined(
            joined(manifest_dir, "vendor"@),
            hash,
        ),
        VendoredSourceView::GitRepo { url, git_ref, hash } => joined(
            joined(manifest_dir, "vendor"@),
            hash,
        ),
        VendoredSourceView::CratePath { relative_path } => joined(manifest_dir, relative_path),
        VendoredSourceView::SystemPath { path } => path,
    }
}

/// Provides what is needed to build a library from vendored source. It holds
/// the place of the source and nothing else.
#[derive(Debug)]
pub struct VendoredBuildContext {
    source_path: Utf8PathBuf,
}

impl VendoredBuildContext {
    /// The text of the path to the vendored source.
    pub closed spec fn source_text(&self) -> Seq<char> {
        path_text(self.source_path)
    }

    /// The context for building `source` in a package whose manifest lies in
    /// `manifest_dir`.
    pub(crate) fn new(source: &VendoredSource, manifest_dir: &Utf8PathBuf) -> (context:
        VendoredBuildContext)
        ensures
            context.source_text() == source_location(path_text(*manifest_dir), source@),
    {
        let source_path = match source {
            VendoredSource::RemoteTarball { url: _, hash } => {
                let staging = path_join(manifest_dir, "vendor");
                path_join(&staging, hash.as_str())
            },
            VendoredSource::GitRepo { url: _, git_ref: _, hash } => {
                let staging = path_join(manifest_dir, "vendor");
                path_join(&staging, hash.as_str())
            },
            VendoredSource::CratePath { relative_path } => {
                path_join(manifest_dir, relative_path.as_str())
            },
            VendoredSource::SystemPath { path } => path_from(path.clone()),
        };
        VendoredBuildContext { source_path }
    }

    /// Gets the local path to the vendored source.
    pub fn source_path(&self) -> (path: &Utf8PathBuf)
        ensures
            path_text(*path) == self.source_text(),
    {
        &self.source_path
    }
}

} // verus!
