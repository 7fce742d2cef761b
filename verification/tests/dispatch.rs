use buildkit::error::{EnvVar, Prober, Requirement};
use buildkit::metadata::{
    BuildKitMetadata, BuildKitMode, PkgConfigRequirement, PkgConfigVersionReq, VcpkgLibName,
    VcpkgRequirement, VendoredSource,
};
use buildkit::probe::{conclude_pkg_config, conclude_vcpkg, try_pkg_config, try_vcpkg};
use buildkit::{BuildKit, Error, ErrorKind, NextStep, VendoredBuildContext};

fn metadata(default_mode: BuildKitMode) -> BuildKitMetadata {
    BuildKitMetadata { pkg_config: None, vcpkg: None, vendored_source: None, default_mode }
}

fn session(metadata: BuildKitMetadata, target: Option<&str>) -> BuildKit {
    BuildKit::new(metadata, String::from("/work/pkg"), target.map(String::from))
}

fn pkg_config(name: &str, version_req: Option<PkgConfigVersionReq>) -> PkgConfigRequirement {
    PkgConfigRequirement { name: String::from(name), version_req }
}

fn failure(result: Result<NextStep, Error>) -> Error {
    match result {
        Err(error) => error,
        Ok(_) => panic!("the build should have failed"),
    }
}

#[test]
fn vendored_build_without_a_source_fails_and_leaves_the_handler_alone() {
    let mut calls = 0;
    let result = session(metadata(BuildKitMode::VendoredBuild), None).build(|_context| {
        calls += 1;
        Ok(())
    });
    assert_eq!(
        failure(result),
        Error(ErrorKind::MissingRequirement(Requirement::VendoredSource))
    );
    assert_eq!(calls, 0);
}

#[test]
fn vendored_build_calls_the_handler_once_with_the_declared_path() {
    let mut declared = metadata(BuildKitMode::VendoredBuild);
    declared.vendored_source =
        Some(VendoredSource::CratePath { relative_path: String::from("vendor/zlib") });
    let mut seen: Vec<String> = Vec::new();
    let result = session(declared, None).build(|context: VendoredBuildContext| {
        seen.push(context.source_path().as_str().to_string());
        Ok(())
    });
    assert!(matches!(result, Ok(NextStep::Done)));
    assert_eq!(seen, vec![String::from("/work/pkg/vendor/zlib")]);
}

#[test]
fn vendored_build_calls_the_handler_once_with_the_override_path() {
    let mut declared = metadata(BuildKitMode::VendoredBuild);
    declared.vendored_source =
        Some(VendoredSource::CratePath { relative_path: String::from("vendor/zlib") });
    let kit = session(declared, None).with_system_path(String::from("/opt/src/zlib"));
    let mut seen: Vec<String> = Vec::new();
    let result = kit.build(|context: VendoredBuildContext| {
        seen.push(context.source_path().as_str().to_string());
        Ok(())
    });
    assert!(matches!(result, Ok(NextStep::Done)));
    assert_eq!(seen, vec![String::from("/opt/src/zlib")]);
}

#[test]
fn override_gives_a_source_where_none_was_declared() {
    let kit = session(metadata(BuildKitMode::VendoredBuild), None)
        .with_system_path(String::from("relative/tree"));
    let mut seen: Vec<String> = Vec::new();
    let result = kit.build(|context: VendoredBuildContext| {
        seen.push(context.source_path().as_str().to_string());
        Ok(())
    });
    assert!(matches!(result, Ok(NextStep::Done)));
    assert_eq!(seen, vec![String::from("relative/tree")]);
}

#[test]
fn fetched_sources_are_staged_by_their_hash() {
    let sources = [
        VendoredSource::RemoteTarball {
            url: String::from("https://example.org/z.tar.gz"),
            hash: String::from("0a1b2c"),
        },
        VendoredSource::GitRepo {
            url: String::from("https://example.org/z.git"),
            git_ref: String::from("v1.3"),
            hash: String::from("0a1b2c"),
        },
    ];
    for source in sources {
        let mut declared = metadata(BuildKitMode::VendoredBuild);
        declared.vendored_source = Some(source);
        let mut seen: Vec<String> = Vec::new();
        let result = session(declared, None).build(|context: VendoredBuildContext| {
            seen.push(context.source_path().as_str().to_string());
            Ok(())
        });
        assert!(matches!(result, Ok(NextStep::Done)));
        assert_eq!(seen, vec![String::from("/work/pkg/vendor/0a1b2c")]);
    }
}

#[test]
fn an_absolute_crate_path_stands_for_itself() {
    let mut declared = metadata(BuildKitMode::VendoredBuild);
    declared.vendored_source =
        Some(VendoredSource::CratePath { relative_path: String::from("/abs/zlib") });
    let mut seen: Vec<String> = Vec::new();
    let result = session(declared, None).build(|context: VendoredBuildContext| {
        seen.push(context.source_path().as_str().to_string());
        Ok(())
    });
    assert!(matches!(result, Ok(NextStep::Done)));
    assert_eq!(seen, vec![String::from("/abs/zlib")]);
}

#[test]
fn the_failure_of_the_handler_is_handed_on_as_it_is() {
    let mut declared = metadata(BuildKitMode::VendoredBuild);
    declared.vendored_source =
        Some(VendoredSource::CratePath { relative_path: String::from("vendor/zlib") });
    let mut calls = 0;
    let result = session(declared, Some("x86_64-pc-windows-msvc")).build(|_context| {
        calls += 1;
        Err(Error::custom(String::from("cc: exit status 1")))
    });
    assert_eq!(failure(result), Error(ErrorKind::Custom(String::from("cc: exit status 1"))));
    assert_eq!(calls, 1);
}

#[test]
fn a_build_without_a_target_fails_unless_it_is_vendored() {
    let mut declared = metadata(BuildKitMode::PkgConfig);
    declared.pkg_config = Some(pkg_config("zlib", None));
    let mut calls = 0;
    let result = session(declared, None).build(|_context| {
        calls += 1;
        Ok(())
    });
    assert_eq!(failure(result), Error(ErrorKind::MissingEnvVar(EnvVar::Target)));
    assert_eq!(calls, 0);
}

#[test]
fn a_probe_without_its_requirement_fails() {
    let mut declared = metadata(BuildKitMode::PkgConfig);
    declared.vcpkg = Some(VcpkgRequirement { name: String::from("zlib"), libs: vec![] });
    declared.vendored_source =
        Some(VendoredSource::CratePath { relative_path: String::from("zlib") });
    let result = session(declared, Some("x86_64-unknown-linux-gnu")).build(|_context| Ok(()));
    assert_eq!(failure(result), Error(ErrorKind::MissingRequirement(Requirement::PkgConfig)));

    let mut declared = metadata(BuildKitMode::PkgConfig);
    declared.pkg_config = Some(pkg_config("zlib", None));
    let result = session(declared, Some("x86_64-pc-windows-msvc")).build(|_context| Ok(()));
    assert_eq!(failure(result), Error(ErrorKind::MissingRequirement(Requirement::Vcpkg)));
}

#[test]
fn pkg_config_mode_hands_back_the_probe() {
    let mut declared = metadata(BuildKitMode::Vcpkg);
    declared.pkg_config = Some(pkg_config(
        "libgit2",
        Some(PkgConfigVersionReq::Range { min: String::from("1.4"), max: String::from("1.8") }),
    ));
    let mut calls = 0;
    let result = session(declared, Some("x86_64-unknown-linux-gnu")).build(|_context| {
        calls += 1;
        Ok(())
    });
    assert_eq!(calls, 0);
    match result {
        Ok(NextStep::ProbePkgConfig(probe)) => {
            assert_eq!(probe.name, "libgit2");
            assert_eq!(probe.rerun_signal, "cargo:rerun-if-env-changed=LIBGIT2_NO_VENDOR");
            let options = format!("{:?}", probe.config);
            assert!(options.contains("min_version: Included(\"1.4\")"));
            assert!(options.contains("max_version: Excluded(\"1.8\")"));
        }
        _ => panic!("a pkg-config probe should have come back"),
    }
}

#[test]
fn vcpkg_mode_hands_back_the_probe() {
    let mut declared = metadata(BuildKitMode::PkgConfig);
    declared.vcpkg = Some(VcpkgRequirement {
        name: String::from("curl"),
        libs: vec![VcpkgLibName {
            lib_name: String::from("libcurl_imp"),
            dll_name: String::from("curl"),
        }],
    });
    let result = session(declared, Some("x86_64-pc-windows-msvc")).build(|_context| Ok(()));
    match result {
        Ok(NextStep::ProbeVcpkg(probe)) => {
            assert_eq!(probe.name, "curl");
            assert_eq!(probe.rerun_signal, "cargo:rerun-if-env-changed=CURL_NO_VENDOR");
        }
        _ => panic!("a vcpkg probe should have come back"),
    }
}

#[test]
fn version_requirements_become_ranges() {
    let cases = [
        (None, "min_version: Unbounded", "max_version: Unbounded"),
        (
            Some(PkgConfigVersionReq::Range { min: String::from("1"), max: String::from("2") }),
            "min_version: Included(\"1\")",
            "max_version: Excluded(\"2\")",
        ),
        (
            Some(PkgConfigVersionReq::Min { min: String::from("1") }),
            "min_version: Included(\"1\")",
            "max_version: Unbounded",
        ),
        (
            Some(PkgConfigVersionReq::Max { max: String::from("2") }),
            "min_version: Unbounded",
            "max_version: Included(\"2\")",
        ),
        (
            Some(PkgConfigVersionReq::Exact { exact: String::from("1.5") }),
            "min_version: Included(\"1.5\")",
            "max_version: Included(\"1.5\")",
        ),
    ];
    for (version_req, lower, upper) in cases {
        let probe = try_pkg_config(&pkg_config("libfoo-bar", version_req));
        assert_eq!(probe.name, "libfoo-bar");
        assert_eq!(probe.rerun_signal, "cargo:rerun-if-env-changed=LIBFOO_BAR_NO_VENDOR");
        let options = format!("{:?}", probe.config);
        assert!(options.contains(lower), "{} lacks {}", options, lower);
        assert!(options.contains(upper), "{} lacks {}", options, upper);
    }
}

#[test]
fn vcpkg_probe_is_prepared_for_any_number_of_libs() {
    for count in [0usize, 1, 5] {
        let libs = (0..count)
            .map(|i| VcpkgLibName {
                lib_name: format!("lib{}", i),
                dll_name: format!("dll{}", i),
            })
            .collect();
        let probe = try_vcpkg(&VcpkgRequirement { name: String::from("open-ssl"), libs });
        assert_eq!(probe.name, "open-ssl");
        assert_eq!(probe.rerun_signal, "cargo:rerun-if-env-changed=OPEN_SSL_NO_VENDOR");
    }
}

#[test]
fn a_found_library_declares_its_include_paths() {
    let found = Ok(vec![String::from("/usr/include"), String::from("/opt/z/include")]);
    assert_eq!(
        conclude_pkg_config(found),
        Ok(vec![
            String::from("cargo:include=/usr/include"),
            String::from("cargo:include=/opt/z/include"),
        ])
    );
    assert_eq!(conclude_pkg_config(Ok(vec![])), Ok(vec![]));
    assert_eq!(conclude_vcpkg(Ok(())), Ok(()));
}

#[test]
fn a_failed_probe_names_its_prober() {
    assert_eq!(
        conclude_pkg_config(Err(String::from("zlib not found"))),
        Err(Error(ErrorKind::ProbeFailed(Prober::PkgConfig, String::from("zlib not found"))))
    );
    assert_eq!(
        conclude_vcpkg(Err(String::from("Could not find Vcpkg tree"))),
        Err(Error(ErrorKind::ProbeFailed(
            Prober::Vcpkg,
            String::from("Could not find Vcpkg tree")
        )))
    );
}

#[test]
fn dispatch_goes_by_the_mode_that_it_is_given() {
    let mut declared = metadata(BuildKitMode::PkgConfig);
    declared.pkg_config = Some(pkg_config("zlib", None));
    declared.vendored_source =
        Some(VendoredSource::SystemPath { path: String::from("/opt/zlib") });
    let kit = session(declared, Some("x86_64-unknown-linux-gnu"));

    let mut seen: Vec<String> = Vec::new();
    let result = kit.dispatch(BuildKitMode::VendoredBuild, |context: VendoredBuildContext| {
        seen.push(context.source_path().as_str().to_string());
        Ok(())
    });
    assert!(matches!(result, Ok(NextStep::Done)));
    assert_eq!(seen, vec![String::from("/opt/zlib")]);

    let mut calls = 0;
    let result = kit.dispatch(BuildKitMode::Vcpkg, |_context| {
        calls += 1;
        Ok(())
    });
    assert_eq!(failure(result), Error(ErrorKind::MissingRequirement(Requirement::Vcpkg)));
    let result = kit.dispatch(BuildKitMode::PkgConfig, |_context| {
        calls += 1;
        Ok(())
    });
    assert!(matches!(result, Ok(NextStep::ProbePkgConfig(_))));
    assert_eq!(calls, 0);
}

#[test]
fn dispatch_of_a_vendored_build_without_a_source_fails() {
    let mut declared = metadata(BuildKitMode::PkgConfig);
    declared.pkg_config = Some(pkg_config("zlib", None));
    let mut calls = 0;
    let result = session(declared, Some("x86_64-unknown-linux-gnu")).dispatch(
        BuildKitMode::VendoredBuild,
        |_context| {
            calls += 1;
            Ok(())
        },
    );
    assert_eq!(
        failure(result),
        Error(ErrorKind::MissingRequirement(Requirement::VendoredSource))
    );
    assert_eq!(calls, 0);
}
