use cargo_artifact_dependency::{
    ArtifactDependency, ArtifactDependencyBuilder, ArtifactDependencyBuilderError, BuildProfile,
};

#[test]
fn builder_defaults_optional_fields() {
    let request = ArtifactDependencyBuilder::default()
        .crate_name("ripgrep")
        .build()
        .unwrap();

    assert_eq!(request.crate_name, "ripgrep");
    assert_eq!(request.version, None);
    assert_eq!(request.bin_name, None);
    assert_eq!(request.profile, BuildProfile::Release);
    assert_eq!(request.target, None);
    assert!(request.locked);
}

#[test]
fn builder_requires_crate_name() {
    let err = ArtifactDependencyBuilder::default().build().unwrap_err();

    assert!(err.message().contains("crate_name"));
}

#[test]
fn builder_allows_disabling_locked_installs() {
    let request = ArtifactDependencyBuilder::default()
        .crate_name("ripgrep")
        .locked(false)
        .build()
        .unwrap();

    assert!(!request.locked);
}

#[test]
fn builder_error_message_names_the_field() {
    let err = ArtifactDependencyBuilder::default()
        .version("1")
        .bin_name("rg")
        .build()
        .unwrap_err();

    assert_eq!(
        err,
        ArtifactDependencyBuilderError::UninitializedField("crate_name".to_string())
    );
    assert_eq!(err.message(), "`crate_name` must be initialized");
}

#[test]
fn builder_with_only_crate_name_matches_default() {
    let built = ArtifactDependencyBuilder::default()
        .crate_name("ripgrep")
        .build()
        .unwrap();
    let mut expected = ArtifactDependency::default();
    expected.crate_name = "ripgrep".to_string();

    assert_eq!(built, expected);
}

#[test]
fn builder_sets_every_field() {
    let built = ArtifactDependencyBuilder::default()
        .crate_name("ripgrep")
        .version("^14")
        .bin_name("rg")
        .profile(BuildProfile::Custom("dist".to_string()))
        .target("x86_64-unknown-linux-musl")
        .locked(false)
        .path("/src/ripgrep")
        .build()
        .unwrap();

    assert_eq!(built.crate_name, "ripgrep");
    assert_eq!(built.version.as_deref(), Some("^14"));
    assert_eq!(built.bin_name.as_deref(), Some("rg"));
    assert_eq!(built.profile, BuildProfile::Custom("dist".to_string()));
    assert_eq!(built.target.as_deref(), Some("x86_64-unknown-linux-musl"));
    assert!(!built.locked);
    assert_eq!(built.path.as_deref(), Some("/src/ripgrep"));
}

#[test]
fn later_setter_call_wins() {
    let built = ArtifactDependencyBuilder::default()
        .crate_name("first")
        .crate_name("second")
        .profile(BuildProfile::Debug)
        .build()
        .unwrap();

    assert_eq!(built.crate_name, "second");
    assert_eq!(built.profile, BuildProfile::Debug);
}

#[test]
fn default_dependency_and_profile() {
    let d = ArtifactDependency::default();
    assert_eq!(d.crate_name, "");
    assert_eq!(d.version, None);
    assert_eq!(d.profile, BuildProfile::Release);
    assert!(d.locked);
    assert_eq!(d.path, None);
    assert_eq!(BuildProfile::default(), BuildProfile::Release);
}
