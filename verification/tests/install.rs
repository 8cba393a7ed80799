use cargo_install::CargoInstallBuilder;

use cargo_artifact_dependency::{
    install_result, ArtifactDependencyBuilder, BuildProfile, Error, ResolveAction,
};

fn args_of(install: &cargo_install::CargoInstall) -> Vec<String> {
    install
        .args()
        .into_iter()
        .map(|arg| arg.to_string_lossy().into_owned())
        .collect()
}

#[test]
fn install_builder_contains_expected_arguments() {
    let request = ArtifactDependencyBuilder::default()
        .crate_name("ripgrep")
        .version("^14")
        .bin_name("rg")
        .profile(BuildProfile::Custom("dist".to_string()))
        .target("x86_64-unknown-linux-musl")
        .build()
        .unwrap();

    let builder = CargoInstallBuilder::default()
        .crate_name("ripgrep")
        .version("14.1.0")
        .bin("rg")
        .root("/tmp/install-root")
        .locked(true)
        .target(request.target.as_deref().unwrap())
        .profile("dist");

    let install = builder.build().unwrap();

    let args = args_of(&install);

    assert_eq!(
        args,
        vec![
            "install",
            "--root",
            "/tmp/install-root",
            "--version",
            "14.1.0",
            "--target",
            "x86_64-unknown-linux-musl",
            "--bin",
            "rg",
            "--profile",
            "dist",
            "--locked",
            "ripgrep",
        ]
    );
}

#[test]
fn install_command_carries_the_dependency_settings() {
    let request = ArtifactDependencyBuilder::default()
        .crate_name("ripgrep")
        .version("^14")
        .bin_name("rg")
        .profile(BuildProfile::Custom("dist".to_string()))
        .target("x86_64-unknown-linux-musl")
        .build()
        .unwrap();

    let install = request.install_command("/tmp/install-root");

    assert_eq!(
        args_of(&install),
        vec![
            "install",
            "--root",
            "/tmp/install-root",
            "--version",
            "^14",
            "--target",
            "x86_64-unknown-linux-musl",
            "--bin",
            "rg",
            "--profile",
            "dist",
            "--locked",
            "ripgrep",
        ]
    );
}

#[test]
fn install_command_for_debug_unlocked_dependency() {
    let request = ArtifactDependencyBuilder::default()
        .crate_name("tool")
        .profile(BuildProfile::Debug)
        .locked(false)
        .build()
        .unwrap();

    assert_eq!(
        args_of(&request.install_command("/r")),
        vec!["install", "--root", "/r", "--debug", "tool"]
    );
}

#[test]
fn a_missing_artifact_is_built_into_the_install_root() {
    let request = ArtifactDependencyBuilder::default()
        .crate_name("ripgrep")
        .build()
        .unwrap();

    let found = Err(Error::NoInstalledBinaries { dir: "/r/bin".to_string() });
    match request.resolve_after_lookup("/r", found) {
        ResolveAction::Install(install) => assert_eq!(
            args_of(&install),
            vec!["install", "--root", "/r", "--locked", "ripgrep"]
        ),
        ResolveAction::Finish(r) => panic!("unexpected finish {:?}", r),
    }

    match request.resolve_after_lookup("/r", Err(Error::AmbiguousInstalledBinaries)) {
        ResolveAction::Finish(Err(Error::AmbiguousInstalledBinaries)) => {}
        _ => panic!("an ambiguous install root must end resolution"),
    }
}

#[test]
fn install_result_maps_success_and_failure() {
    assert!(install_result(Ok(())).is_ok());
    let failed = install_result(Err(cargo_install::CargoInstallError::CargoNotInstalled));
    assert!(matches!(
        failed,
        Err(Error::CargoInstallFailed(cargo_install::CargoInstallError::CargoNotInstalled))
    ));
}
