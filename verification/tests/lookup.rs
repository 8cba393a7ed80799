use std::path::{Path, PathBuf};

use cargo_artifact_dependency::{
    cached_artifact, check_binary, executable_name, files_in_dir, find_artifact,
    find_binary_with_name, find_single_binary, ArtifactDependencyBuilder, ArtifactLookup, Error,
    IoError, IoErrorKind, ListedEntry,
    ResolveAction,
};

/// Makes the directory `name` in `parent` (it may exist already) and returns its path.
fn make_dir(parent: &Path, name: &str) -> PathBuf {
    let _ = tempfile::Builder::new()
        .prefix(name)
        .rand_bytes(0)
        .keep(true)
        .tempdir_in(parent);
    parent.join(name)
}

/// Makes the empty file `name` in `dir` and returns its path.
fn make_file(dir: &Path, name: &str) -> String {
    let _ = tempfile::Builder::new()
        .prefix(name)
        .rand_bytes(0)
        .keep(true)
        .tempfile_in(dir);
    path_str(&dir.join(name))
}

/// An entry of a listing.
fn entry(name: &str, is_file: bool) -> ListedEntry {
    ListedEntry { file_name: name.to_string(), is_file }
}

/// Finishes a lookup with the listing of the directory, given as `files`.
fn lookup(install_root: &str, bin_name: Option<&str>, entries: Vec<ListedEntry>) -> Result<String, Error> {
    match find_artifact(install_root, bin_name, "", '/') {
        ArtifactLookup::Done(found) => found,
        ArtifactLookup::ListDirectory { dir } => find_single_binary(dir, Ok(entries), '/'),
    }
}

fn path_str(p: &Path) -> String {
    p.to_string_lossy().into_owned()
}

#[test]
fn finds_named_installed_binary_without_network() {
    let install_root = tempfile::tempdir().unwrap();
    let bin_dir = make_dir(install_root.path(), "bin");
    make_file(&bin_dir, &executable_name("other", ""));
    make_file(&bin_dir, &executable_name("rg", ""));

    let artifact_path = lookup(&path_str(install_root.path()), Some("rg"), Vec::new()).unwrap();

    assert_eq!(artifact_path, path_str(&bin_dir.join(executable_name("rg", ""))));
}

#[test]
fn finds_single_installed_binary_without_network() {
    let install_root = tempfile::tempdir().unwrap();
    let bin_dir = make_dir(install_root.path(), "bin");
    make_file(&bin_dir, &executable_name("rg", ""));

    let artifact_path =
        lookup(&path_str(install_root.path()), None, vec![entry("rg", true)]).unwrap();

    assert_eq!(artifact_path, path_str(&bin_dir.join(executable_name("rg", ""))));
}

#[test]
fn rejects_missing_named_binary_without_network() {
    let install_root = tempfile::tempdir().unwrap();
    make_dir(install_root.path(), "bin");

    let err = lookup(&path_str(install_root.path()), Some("rg"), Vec::new()).unwrap_err();

    assert!(matches!(err, Error::InvalidArtifactPath { .. }));
}

#[test]
fn rejects_empty_binary_dir_without_network() {
    let install_root = tempfile::tempdir().unwrap();
    make_dir(install_root.path(), "bin");

    let err = lookup(&path_str(install_root.path()), None, Vec::new()).unwrap_err();

    assert!(matches!(err, Error::NoInstalledBinaries { .. }));
}

#[test]
fn rejects_ambiguous_binaries_without_network() {
    let install_root = tempfile::tempdir().unwrap();
    let bin_dir = make_dir(install_root.path(), "bin");
    make_file(&bin_dir, &executable_name("rg", ""));
    make_file(&bin_dir, &executable_name("rga", ""));

    let err = lookup(
        &path_str(install_root.path()),
        None,
        vec![entry("rg", true), entry("rga", true)],
    )
    .unwrap_err();

    assert!(matches!(err, Error::AmbiguousInstalledBinaries));
}

#[test]
fn resolves_existing_artifact_from_stable_install_root_without_network() {
    let request = ArtifactDependencyBuilder::default()
        .crate_name("ripgrep")
        .bin_name("rg")
        .build()
        .unwrap();
    let temp = tempfile::env::temp_dir();
    let install_root = request.install_root(&path_str(&temp), '/');
    let base = make_dir(&temp, "cargo-artifact-dependency");
    let root_dir = make_dir(&base, &Path::new(&install_root).file_name().unwrap().to_string_lossy());
    assert_eq!(path_str(&root_dir), install_root);
    let bin_dir = make_dir(&root_dir, "bin");
    make_file(&bin_dir, &executable_name("rg", ""));

    let found = lookup(&install_root, request.bin_name.as_deref(), Vec::new());
    let artifact_path = match request.resolve_after_lookup(&install_root, found) {
        ResolveAction::Finish(result) => result.unwrap(),
        ResolveAction::Install(_) => panic!("an installed artifact must not be built again"),
    };

    assert_eq!(artifact_path, path_str(&bin_dir.join(executable_name("rg", ""))));
}

#[test]
fn a_missing_bin_dir_means_not_installed() {
    let missing = IoError { kind: IoErrorKind::NotFound, message: "no such directory".to_string() };
    let err = find_single_binary("/r/bin".to_string(), Err(missing), '/').unwrap_err();
    assert!(matches!(err, Error::Io(IoError { kind: IoErrorKind::NotFound, .. })));
    assert!(matches!(cached_artifact(Err(err)), Ok(None)));
}

#[test]
fn find_binary_with_name_reports_the_expected_path() {
    let dir = tempfile::tempdir().unwrap();
    let d = path_str(dir.path());
    match find_binary_with_name(&d, "tool", "", '/') {
        Err(Error::InvalidArtifactPath { path }) => assert_eq!(path, format!("{}/tool", d)),
        other => panic!("unexpected {:?}", other),
    }
    make_file(dir.path(), "tool");
    assert_eq!(find_binary_with_name(&d, "tool", "", '/').unwrap(), format!("{}/tool", d));
}

#[test]
fn a_directory_is_not_a_binary() {
    let dir = tempfile::tempdir().unwrap();
    make_dir(dir.path(), "tool");
    let d = path_str(dir.path());
    assert!(matches!(
        find_binary_with_name(&d, "tool", "", '/'),
        Err(Error::InvalidArtifactPath { .. })
    ));
}

#[test]
fn check_binary_decides_by_the_file_test() {
    assert_eq!(check_binary("/x/rg".to_string(), true).unwrap(), "/x/rg");
    match check_binary("/x/rg".to_string(), false) {
        Err(Error::InvalidArtifactPath { path }) => assert_eq!(path, "/x/rg"),
        other => panic!("unexpected {:?}", other),
    }
}

#[test]
fn find_single_binary_counts_the_files() {
    let io = IoError { kind: IoErrorKind::Other, message: "denied".to_string() };
    assert!(matches!(
        find_single_binary("/d".to_string(), Err(io.clone()), '/'),
        Err(Error::Io(e)) if e == io
    ));
    match find_single_binary("/d".to_string(), Ok(vec![entry("sub", false)]), '/') {
        Err(Error::NoInstalledBinaries { dir }) => assert_eq!(dir, "/d"),
        other => panic!("unexpected {:?}", other),
    }
    assert_eq!(
        find_single_binary("/d".to_string(), Ok(vec![entry("sub", false), entry("a", true)]), '/')
            .unwrap(),
        "/d/a"
    );
    assert!(matches!(
        find_single_binary("/d".to_string(), Ok(vec![entry("b", true), entry("a", true)]), '/'),
        Err(Error::AmbiguousInstalledBinaries)
    ));
}

#[test]
fn find_artifact_asks_for_a_listing_without_a_name() {
    match find_artifact("/root", None, "", '/') {
        ArtifactLookup::ListDirectory { dir } => assert_eq!(dir, "/root/bin"),
        ArtifactLookup::Done(_) => panic!("expected a listing"),
    }
}

#[test]
fn cached_artifact_reads_lookup_outcomes() {
    assert_eq!(cached_artifact(Ok("/p".to_string())).unwrap(), Some("/p".to_string()));
    assert!(matches!(
        cached_artifact(Err(Error::NoInstalledBinaries { dir: "/d".to_string() })),
        Ok(None)
    ));
    assert!(matches!(
        cached_artifact(Err(Error::InvalidArtifactPath { path: "/p".to_string() })),
        Ok(None)
    ));
    assert!(matches!(
        cached_artifact(Err(Error::AmbiguousInstalledBinaries)),
        Err(Error::AmbiguousInstalledBinaries)
    ));
    let other = IoError { kind: IoErrorKind::Other, message: "denied".to_string() };
    assert!(matches!(
        cached_artifact(Err(Error::Io(other))),
        Err(Error::Io(IoError { kind: IoErrorKind::Other, .. }))
    ));
}

#[test]
fn files_in_dir_keeps_regular_files_sorted() {
    let entries = vec![
        entry("zeta", true),
        entry("sub", false),
        entry("alpha", true),
        entry("Beta", true),
        entry("alpha-2", true),
    ];
    assert_eq!(
        files_in_dir("/d", Ok(entries), '/').unwrap(),
        vec!["/d/Beta", "/d/alpha", "/d/alpha-2", "/d/zeta"]
    );
    let io = IoError { kind: IoErrorKind::Other, message: "denied".to_string() };
    assert_eq!(files_in_dir("/d", Err(io.clone()), '/'), Err(io));
    assert_eq!(files_in_dir("/d", Ok(Vec::new()), '/'), Ok(Vec::<String>::new()));
}

#[test]
fn executable_names_carry_the_host_suffix() {
    assert_eq!(executable_name("rg", ""), "rg");
    assert_eq!(executable_name("rg", ".exe"), "rg.exe");
    match find_artifact("/root", Some("rg"), ".exe", '/') {
        ArtifactLookup::Done(Err(Error::InvalidArtifactPath { path })) => {
            assert_eq!(path, "/root/bin/rg.exe")
        }
        _ => panic!("expected a missing binary at /root/bin/rg.exe"),
    }
}

#[test]
fn a_single_binary_is_found_in_the_bin_directory() {
    match find_artifact("/root", None, "", '/') {
        ArtifactLookup::ListDirectory { dir } => assert_eq!(
            find_single_binary(dir, Ok(vec![entry("rg", true)]), '/').unwrap(),
            "/root/bin/rg"
        ),
        ArtifactLookup::Done(_) => panic!("expected a listing"),
    }
}

#[test]
fn subdirectories_and_order_do_not_change_the_single_binary() {
    let plain = find_single_binary("/d".to_string(), Ok(vec![entry("rg", true)]), '/').unwrap();
    let with_dirs = find_single_binary(
        "/d".to_string(),
        Ok(vec![entry("sub", false), entry("rg", true), entry("other", false)]),
        '/',
    )
    .unwrap();
    assert_eq!(plain, with_dirs);
    assert_eq!(plain, "/d/rg");
}
