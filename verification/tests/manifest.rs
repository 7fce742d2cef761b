use buildkit::decode::{DecodeError, Problem, Segment};
use buildkit::document::{Document, Entry};
use buildkit::error::{EnvVar, Prober, Requirement};
use buildkit::manifest::{find_package, manifest_path, Environment, Package};
use buildkit::metadata::BuildKitMode;
use buildkit::{BuildKit, Error, ErrorKind, NextStep};

fn text(value: &str) -> Document {
    Document::Text(String::from(value))
}

fn table(entries: Vec<(&str, Document)>) -> Document {
    Document::Table(
        entries
            .into_iter()
            .map(|(key, value)| Entry { key: String::from(key), value })
            .collect(),
    )
}

fn environment() -> Environment {
    Environment {
        manifest_dir: Some(String::from("/work/pkg")),
        package_name: Some(String::from("zlib-sys")),
        package_version: Some(String::from("1.2.3")),
        target: Some(String::from("x86_64-unknown-linux-gnu")),
    }
}

fn package(name: &str, version: &str, metadata: Document) -> Package {
    Package { name: String::from(name), version: String::from(version), metadata }
}

fn section() -> Document {
    table(vec![
        ("default-mode", text("vendored-build")),
        (
            "vendored-source",
            table(vec![("crate-path", table(vec![("relative-path", text("zlib"))]))]),
        ),
    ])
}

fn failure(result: Result<BuildKit, Error>) -> Error {
    match result {
        Err(error) => error,
        Ok(_) => panic!("loading should have failed"),
    }
}

#[test]
fn manifest_lies_in_the_manifest_dir() {
    let path = manifest_path(&environment()).unwrap();
    assert_eq!(path.as_str(), "/work/pkg/Cargo.toml");
    let mut nowhere = environment();
    nowhere.manifest_dir = None;
    assert_eq!(manifest_path(&nowhere), Err(Error(ErrorKind::MissingEnvVar(EnvVar::ManifestDir))));
}

#[test]
fn configuration_is_loaded_from_the_one_matching_package() {
    let packages = vec![
        package("zlib-sys", "1.2.2", Document::Null),
        package("zlib-sys", "1.2.3", table(vec![("other", text("x")), ("buildkit", section())])),
        package("zlib", "1.2.3", table(vec![("buildkit", text("not this one"))])),
    ];
    let kit = BuildKit::from_metadata(&environment(), &packages).unwrap();
    assert_eq!(kit.mode(), Ok(BuildKitMode::VendoredBuild));
    let mut seen: Vec<String> = Vec::new();
    let result = kit.build(|context| {
        seen.push(context.source_path().as_str().to_string());
        Ok(())
    });
    assert!(matches!(result, Ok(NextStep::Done)));
    assert_eq!(seen, vec![String::from("/work/pkg/zlib")]);
}

#[test]
fn the_target_of_the_environment_decides_the_mode() {
    let declared = table(vec![("buildkit", table(vec![("default-mode", text("pkg-config"))]))]);
    let packages = vec![package("zlib-sys", "1.2.3", declared)];
    let mut msvc = environment();
    msvc.target = Some(String::from("x86_64-pc-windows-msvc"));
    assert_eq!(BuildKit::from_metadata(&msvc, &packages).unwrap().mode(), Ok(BuildKitMode::Vcpkg));
    assert_eq!(
        BuildKit::from_metadata(&environment(), &packages).unwrap().mode(),
        Ok(BuildKitMode::PkgConfig)
    );
    let mut none = environment();
    none.target = None;
    assert_eq!(
        BuildKit::from_metadata(&none, &packages).unwrap().mode(),
        Err(Error(ErrorKind::MissingEnvVar(EnvVar::Target)))
    );
}

#[test]
fn each_missing_variable_is_reported_by_its_name() {
    let packages = vec![package("zlib-sys", "1.2.3", table(vec![("buildkit", section())]))];
    let mut env = environment();
    env.package_version = None;
    assert_eq!(
        failure(BuildKit::from_metadata(&env, &packages)),
        Error(ErrorKind::MissingEnvVar(EnvVar::PackageVersion))
    );
    env.package_name = None;
    assert_eq!(
        failure(BuildKit::from_metadata(&env, &packages)),
        Error(ErrorKind::MissingEnvVar(EnvVar::PackageName))
    );
    env.manifest_dir = None;
    assert_eq!(
        failure(BuildKit::from_metadata(&env, &packages)),
        Error(ErrorKind::MissingEnvVar(EnvVar::ManifestDir))
    );
    assert_eq!(EnvVar::ManifestDir.name(), "CARGO_MANIFEST_DIR");
    assert_eq!(EnvVar::PackageName.name(), "CARGO_PKG_NAME");
    assert_eq!(EnvVar::PackageVersion.name(), "CARGO_PKG_VERSION");
    assert_eq!(EnvVar::Target.name(), "TARGET");
}

#[test]
fn no_package_or_several_packages_are_refused() {
    let expected = Error(ErrorKind::AmbiguousOrMissingPackage {
        name: String::from("zlib-sys"),
        version: String::from("1.2.3"),
    });
    assert_eq!(failure(BuildKit::from_metadata(&environment(), &vec![])), expected);
    let others = vec![
        package("zlib-sys", "1.2.4", table(vec![("buildkit", section())])),
        package("zlib", "1.2.3", table(vec![("buildkit", section())])),
    ];
    assert_eq!(failure(BuildKit::from_metadata(&environment(), &others)), expected);
    let twice = vec![
        package("zlib-sys", "1.2.3", table(vec![("buildkit", section())])),
        package("zlib-sys", "1.2.3", table(vec![("buildkit", section())])),
    ];
    assert_eq!(failure(BuildKit::from_metadata(&environment(), &twice)), expected);
}

#[test]
fn the_one_package_is_found_wherever_it_stands() {
    let packages = vec![
        package("a", "1", Document::Null),
        package("b", "1", Document::Bool(true)),
        package("a", "2", Document::Number),
        package("b", "1", Document::Null),
    ];
    assert_eq!(find_package(&packages, "a", "1"), Some(&packages[0]));
    assert_eq!(find_package(&packages, "a", "2"), Some(&packages[2]));
    assert_eq!(find_package(&packages, "b", "1"), None);
    assert_eq!(find_package(&packages, "c", "1"), None);
    assert_eq!(find_package(&packages, "a", "1.0"), None);
}

#[test]
fn a_package_without_the_table_is_refused() {
    let expected = Error(ErrorKind::MissingConfigSection {
        name: String::from("zlib-sys"),
        version: String::from("1.2.3"),
    });
    for metadata in [
        Document::Null,
        table(vec![]),
        table(vec![("docs", table(vec![]))]),
        text("buildkit"),
    ] {
        let packages = vec![package("zlib-sys", "1.2.3", metadata)];
        assert_eq!(failure(BuildKit::from_metadata(&environment(), &packages)), expected);
    }
}

#[test]
fn a_table_that_does_not_decode_is_refused() {
    let cases = vec![
        (
            table(vec![("buildkit", Document::Null)]),
            DecodeError { path: vec![], problem: Problem::NotATable },
        ),
        (
            table(vec![("buildkit", section()), ("buildkit", section())]),
            DecodeError { path: vec![], problem: Problem::RepeatedField },
        ),
        (
            table(vec![("buildkit", table(vec![("default-mode", text("cmake"))]))]),
            DecodeError {
                path: vec![Segment::Field(String::from("default-mode"))],
                problem: Problem::UnknownVariant,
            },
        ),
    ];
    for (metadata, fault) in cases {
        let packages = vec![package("zlib-sys", "1.2.3", metadata)];
        assert_eq!(
            failure(BuildKit::from_metadata(&environment(), &packages)),
            Error(ErrorKind::MalformedConfig(fault))
        );
    }
}

#[test]
fn errors_read_as_sentences() {
    let cases = vec![
        (
            Error::cargo_metadata(String::from("cargo not found")),
            "Failed to parse cargo metadata: cargo not found",
        ),
        (
            Error(ErrorKind::AmbiguousOrMissingPackage {
                name: String::from("zlib-sys"),
                version: String::from("1.2.3"),
            }),
            "Failed to find in cargo metadata output: exactly one package zlib-sys@1.2.3",
        ),
        (
            Error(ErrorKind::MissingConfigSection {
                name: String::from("zlib-sys"),
                version: String::from("1.2.3"),
            }),
            "Failed to find in cargo metadata output: metadata.buildkit for zlib-sys@1.2.3",
        ),
        (
            Error(ErrorKind::MalformedConfig(DecodeError {
                path: vec![Segment::Field(String::from("pkg-config"))],
                problem: Problem::NotATable,
            })),
            "Failed to decode `package.metadata.buildkit`: expected a table at `pkg-config`",
        ),
        (
            Error(ErrorKind::MissingEnvVar(EnvVar::Target)),
            "Failed to get env var `TARGET`: environment variable not found",
        ),
        (
            Error(ErrorKind::MissingRequirement(Requirement::VendoredSource)),
            "vendored mode is set but no vendored source specified",
        ),
        (
            Error(ErrorKind::MissingRequirement(Requirement::PkgConfig)),
            "pkg-config mode is set but no pkg-config requirement specified",
        ),
        (
            Error(ErrorKind::MissingRequirement(Requirement::Vcpkg)),
            "vcpkg mode is set but no vcpkg requirement specified",
        ),
        (
            Error(ErrorKind::ProbeFailed(Prober::PkgConfig, String::from("no zlib"))),
            "pkg-config failed to probe: no zlib",
        ),
        (
            Error(ErrorKind::ProbeFailed(Prober::Vcpkg, String::from("no tree"))),
            "vcpkg failed to probe: no tree",
        ),
        (Error::custom(String::from("make failed")), "make failed"),
    ];
    for (error, sentence) in cases {
        assert_eq!(error.message(), sentence);
    }
    let error = Error::custom(String::from("x"));
    assert_eq!(error.kind(), &ErrorKind::Custom(String::from("x")));
}
