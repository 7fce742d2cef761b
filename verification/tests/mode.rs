use buildkit::buildkit::BuildKit;
use buildkit::error::{EnvVar, Error, ErrorKind};
use buildkit::metadata::{BuildKitMetadata, BuildKitMode};

fn kit(default_mode: BuildKitMode, target: Option<&str>) -> BuildKit {
    let metadata = BuildKitMetadata {
        pkg_config: None,
        vcpkg: None,
        vendored_source: None,
        default_mode,
    };
    BuildKit::new(metadata, String::from("/work/pkg"), target.map(String::from))
}

#[test]
fn vendored_default_wins_whatever_the_target() {
    let targets = [
        None,
        Some(""),
        Some("x86_64-unknown-linux-gnu"),
        Some("x86_64-pc-windows-msvc"),
    ];
    for target in targets {
        assert_eq!(
            kit(BuildKitMode::VendoredBuild, target).mode(),
            Ok(BuildKitMode::VendoredBuild)
        );
    }
}

#[test]
fn missing_target_is_its_own_error() {
    let expected = Err(Error(ErrorKind::MissingEnvVar(EnvVar::Target)));
    assert_eq!(kit(BuildKitMode::PkgConfig, None).mode(), expected);
    assert_eq!(kit(BuildKitMode::Vcpkg, None).mode(), expected);
}

#[test]
fn msvc_target_probes_with_vcpkg() {
    for default_mode in [BuildKitMode::PkgConfig, BuildKitMode::Vcpkg] {
        for target in ["x86_64-pc-windows-msvc", "aarch64-pc-windows-msvc", "-windows-msvc"] {
            assert_eq!(kit(default_mode, Some(target)).mode(), Ok(BuildKitMode::Vcpkg));
        }
    }
}

#[test]
fn every_other_target_probes_with_pkg_config() {
    let targets = [
        "x86_64-unknown-linux-gnu",
        "x86_64-pc-windows-gnu",
        "aarch64-apple-darwin",
        "x86_64-pc-windows-msvc-extra",
        "windows-msvc",
        "x86_64-pc-WINDOWS-MSVC",
        "",
    ];
    for default_mode in [BuildKitMode::PkgConfig, BuildKitMode::Vcpkg] {
        for target in targets {
            assert_eq!(kit(default_mode, Some(target)).mode(), Ok(BuildKitMode::PkgConfig));
        }
    }
}

#[test]
fn mode_is_the_same_each_time_it_is_asked() {
    let session = kit(BuildKitMode::Vcpkg, Some("i686-pc-windows-msvc"));
    assert_eq!(session.mode(), session.mode());
    assert_eq!(session.mode(), Ok(BuildKitMode::Vcpkg));
}
