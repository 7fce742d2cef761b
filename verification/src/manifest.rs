//! What the build environment and the manifest reader say of the package
//! being built, and where in it the configuration stands.

use vstd::prelude::*;
use vstd::string::*;
use camino::Utf8PathBuf;
use crate::document::{lookup, Document, Found};
use crate::error::{EnvVar, Error, ErrorKind, ErrorKindView};
use crate::path::{joined, path_from, path_join, path_text};
use crate::text::{same_text, text_of};

verus! {

/// What the environment of the build says, each value as it was read, and
/// none where the variable is not set.
#[derive(Clone, Debug, PartialEq, Eq)]
pub struct Environment {
    /// `CARGO_MANIFEST_DIR`: the directory that holds the manifest.
    pub manifest_dir: Option<String>,
    /// `CARGO_PKG_NAME`: the name of the package.
    pub package_name: Option<String>,
    /// `CARGO_PKG_VERSION`: the version of the package.
    pub package_version: Option<String>,
    /// `TARGET`: the target triple of the build.
    pub target: Option<String>,
}

/// The mathematical value of an [`Environment`].
pub struct EnvironmentView {
    pub manifest_dir: Option<Seq<char>>,
    pub package_name: Option<Seq<char>>,
    pub package_version: Option<Seq<char>>,
    pub target: Option<Seq<char>>,
}

impl View for Environment {
    type V = EnvironmentView;

    open spec fn view(&self) -> EnvironmentView {
        EnvironmentView {
            manifest_dir: text_of(self.manifest_dir),
            package_name: text_of(self.package_name),
            package_version: text_of(self.package_version),
            target: text_of(self.target),
        }
    }
}

/// One package of a manifest, as the manifest reader hands it over.
#[derive(Debug, PartialEq, Eq)]
pub struct Package {
    pub name: String,
    pub version: String,
    /// The `metadata` table of the package; a null where it has none.
    pub metadata: Document,
}

impl Package {
    /// Whether the package has this name and this version, to the letter.
    pub open spec fn is_named(&self, name: Seq<char>, version: Seq<char>) -> bool {
        self.name@ == name && self.version@ == version
    }
}

/// Whether the package at `index` has this name and version and no other
/// package has.
pub open spec fn is_sole_match(
    packages: Seq<Package>,
    index: int,
    name: Seq<char>,
    version: Seq<char>,
) -> bool {
    &&& 0 <= index < packages.len()
    &&& packages[index].is_named(name, version)
    &&& forall|other: int|
        0 <= other < packages.len() && other != index ==> !(#[trigger] packages[other]).is_named(
            name,
            version,
        )
}

/// The place of the one package with this name and version, where there is
/// exactly one.
pub open spec fn sole_match(packages: Seq<Package>, name: Seq<char>, version: Seq<char>) -> Option<
    int,
> {
    if exists|index: int| is_sole_match(packages, index, name, version) {
        Some(choose|index: int| is_sole_match(packages, index, name, version))
    } else {
        None
    }
}

/// What a search for the `buildkit` table in the metadata of a package comes
/// to. Metadata that is no table holds none.
pub open spec fn section_of(metadata: Document) -> Found {
    match metadata {
        Document::Table(entries) => lookup(entries@, "buildkit"@),
        _ => Found::Absent,
    }
}

/// Where the manifest of the package lies: `Cargo.toml` in the directory
/// that the environment names.
pub fn manifest_path(environment: &Environment) -> (result: Result<Utf8PathBuf, Error>)
    ensures
        match environment@.manifest_dir {
            Some(dir) => result matches Ok(path) && path_text(path) == joined(
                dir,
                "Cargo.toml"@,
            ),
            None => result matches Err(error) && error@ == ErrorKindView::MissingEnvVar(
                EnvVar::ManifestDir,
            ),
        },
{
    match &environment.manifest_dir {
        Some(dir) => {
            let dir = path_from(dir.clone());
            Ok(path_join(&dir, "Cargo.toml"))
        },
        None => Err(Error(ErrorKind::MissingEnvVar(EnvVar::ManifestDir))),
    }
}

/// Finds the one package with this name and version.
pub fn find_package<'a>(packages: &'a Vec<Package>, name: &str, version: &str) -> (found: Option<
    &'a Package,
>)
    ensures
        match found {
            Some(package) => sole_match(packages@, name@, version@) matches Some(index)
                && *package == packages@[index],
            None => sole_match(packages@, name@, version@) is None,
        },
{
    let mut found: Option<&'a Package> = None;
    let mut several = false;
    let ghost mut first: int = 0;
    let ghost mut second: int = 0;
    let mut i: usize = 0;
    while i < packages.len()
        invariant
            i <= packages@.len(),
            several ==> 0 <= first < second < i && packages@[first].is_named(name@, version@)
                && packages@[second].is_named(name@, version@),
            !several && found is None ==> forall|j: int|
                0 <= j < i ==> !(#[trigger] packages@[j]).is_named(name@, version@),
            !several && found is Some ==> 0 <= first < i && *found->0 == packages@[first]
                && packages@[first].is_named(name@, version@) && forall|j: int|
                0 <= j < i && j != first ==> !(#[trigger] packages@[j]).is_named(name@, version@),
        decreases packages@.len() - i,
    {
        let package = &packages[i];
        if same_text(package.name.as_str(), name) && same_text(package.version.as_str(), version) {
            if !several {
                match found {
                    None => {
                        found = Some(package);
                        proof {
                            first = i as int;
                        }
                    },
                    Some(_) => {
                        several = true;
                        proof {
                            second = i as int;
                        }
                    },
                }
            }
        }
        i += 1;
    }
    if several {
        proof {
            assert forall|index: int| !is_sole_match(packages@, index, name@, version@) by {
                if index == first {
                    assert(packages@[second].is_named(name@, version@));
                } else {
                    assert(packages@[first].is_named(name@, version@));
                }
            }
        }
        None
    } else {
        proof {
            if found is Some {
                assert(is_sole_match(packages@, first, name@, version@));
                let chosen = choose|index: int| is_sole_match(packages@, index, name@, version@);
                assert(chosen == first) by {
                    if chosen != first {
                        assert(!packages@[first].is_named(name@, version@));
                    }
                }
            } else {
                assert forall|index: int| !is_sole_match(packages@, index, name@, version@) by {
                    if 0 <= index < packages@.len() {
                        assert(!packages@[index].is_named(name@, version@));
                    }
                }
            }
        }
        found
    }
}

} // verus!
