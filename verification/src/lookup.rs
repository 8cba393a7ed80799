//! Finding the built artifact in an install root.

use vstd::prelude::*;

use crate::error::{Error, IoError, IoErrorKind};
use crate::listing::{files_in_dir, regular_file_paths, ListedEntry};
use crate::naming::{join_path, join_path_str, views};

verus! {

/// The file name of the executable called `bin_name` on a host whose
/// executables end in `exe_suffix` (`.exe` on Windows, nothing elsewhere).
pub open spec fn executable_file_name(bin_name: Seq<char>, exe_suffix: Seq<char>) -> Seq<char> {
    bin_name + exe_suffix
}

/// The file name of the executable called `bin_name` on a host whose
/// executables end in `exe_suffix`.
pub fn executable_name(bin_name: &str, exe_suffix: &str) -> (r: String)
    ensures
        r@ == executable_file_name(bin_name@, exe_suffix@),
{
    let mut r = String::from_str(bin_name);
    r.append(exe_suffix);
    r
}

/// The directory of an install root that holds the installed binaries.
pub open spec fn bin_dir(install_root: Seq<char>, separator: char) -> Seq<char> {
    join_path(install_root, "bin"@, separator)
}

/// Where the binary `name` is looked for in `dir`.
pub open spec fn binary_path(dir: Seq<char>, name: Seq<char>, exe_suffix: Seq<char>, separator: char) -> Seq<char> {
    join_path(dir, executable_file_name(name, exe_suffix), separator)
}

/// `Path::is_file`: whether `path` names a regular file (following symbolic
/// links). The answer depends on the file system at the time of the call,
/// so nothing is stated of it.
#[verifier::external_body]
fn path_is_file(path: &str) -> bool {
    std::path::Path::new(path).is_file()
}

/// The outcome of looking for a binary at `path`, given whether a regular
/// file is there: the path itself, or `InvalidArtifactPath` naming it.
pub fn check_binary(path: String, is_file: bool) -> (r: Result<String, Error>)
    ensures
        is_file ==> (r matches Ok(p) && p@ == path@),
        !is_file ==> (r matches Err(Error::InvalidArtifactPath { path: p }) && p@ == path@),
{
    if is_file {
        Ok(path)
    } else {
        Err(Error::InvalidArtifactPath { path })
    }
}

/// Looks for the binary `name` in `dir`: its path when a regular file is
/// there, else `InvalidArtifactPath` with that path.
pub fn find_binary_with_name(dir: &str, name: &str, exe_suffix: &str, separator: char) -> (r: Result<String, Error>)
    ensures
        r matches Ok(p) ==> p@ == binary_path(dir@, name@, exe_suffix@, separator),
        r matches Err(e) ==> (e matches Error::InvalidArtifactPath { path } && path@ == binary_path(
            dir@,
            name@,
            exe_suffix@,
            separator,
        )),
{
    let file_name = executable_name(name, exe_suffix);
    let path = join_path_str(dir, file_name.as_str(), separator);
    let is_file = path_is_file(path.as_str());
    check_binary(path, is_file)
}

/// Every path of a regular file of a listing of `dir` is `dir` joined with
/// the name of a regular-file entry.
pub proof fn lemma_regular_file_paths_in_dir(dir: Seq<char>, entries: Seq<ListedEntry>, separator: char)
    ensures
        forall|k: int|
            0 <= k < regular_file_paths(dir, entries, separator).len() ==> exists|i: int|
                0 <= i < entries.len() && entries[i].is_file && #[trigger] regular_file_paths(
                    dir,
                    entries,
                    separator,
                )[k] == join_path(dir, entries[i].file_name@, separator),
    decreases entries.len(),
{
    if entries.len() > 0 {
        let rest = entries.drop_last();
        lemma_regular_file_paths_in_dir(dir, rest, separator);
        assert forall|k: int| 0 <= k < regular_file_paths(dir, entries, separator).len() implies exists|i: int|
            0 <= i < entries.len() && entries[i].is_file && #[trigger] regular_file_paths(
                dir,
                entries,
                separator,
            )[k] == join_path(dir, entries[i].file_name@, separator) by {
            if k < regular_file_paths(dir, rest, separator).len() {
                let i = choose|i: int|
                    0 <= i < rest.len() && rest[i].is_file && regular_file_paths(dir, rest, separator)[k]
                        == join_path(dir, rest[i].file_name@, separator);
                assert(entries[i] == rest[i]);
            } else {
                assert(entries[entries.len() - 1] == entries.last());
            }
        }
    }
}

/// Picks the single binary among the regular files of the listing
/// `entries` of `dir`: a failed listing is passed on, no regular file is
/// `NoInstalledBinaries`, more than one is `AmbiguousInstalledBinaries`,
/// and the one regular file is the result, as its path in `dir`.
pub fn find_single_binary(dir: String, entries: Result<Vec<ListedEntry>, IoError>, separator: char) -> (r: Result<String, Error>)
    ensures
        (match entries {
            Err(e) => r == Err::<String, Error>(Error::Io(e)),
            Ok(es) => {
                let paths = regular_file_paths(dir@, es@, separator);
                if paths.len() == 0 {
                    r == Err::<String, Error>(Error::NoInstalledBinaries { dir })
                } else if paths.len() == 1 {
                    r matches Ok(p) && p@ == paths[0] && exists|i: int|
                        0 <= i < es@.len() && es@[i].is_file && p@ == join_path(dir@, es@[i].file_name@, separator)
                } else {
                    r == Err::<String, Error>(Error::AmbiguousInstalledBinaries)
                }
            },
        }),
{
    broadcast use vstd::seq_lib::group_to_multiset_ensures;

    let ghost listed = entries;
    let files = files_in_dir(dir.as_str(), entries, separator);
    match files {
        Err(e) => Err(Error::Io(e)),
        Ok(mut binaries) => {
            let ghost es = listed->Ok_0@;
            let ghost paths = regular_file_paths(dir@, es, separator);
            proof {
                assert(views(binaries@).len() == paths.len()) by {
                    vstd::seq_lib::to_multiset_len(views(binaries@));
                    vstd::seq_lib::to_multiset_len(paths);
                }
                lemma_regular_file_paths_in_dir(dir@, es, separator);
                if paths.len() == 1 {
                    assert(paths.to_multiset().count(paths[0]) > 0);
                    assert(views(binaries@).contains(paths[0]));
                    assert(views(binaries@)[0] == binaries@[0]@);
                }
            }
            if binaries.len() == 0 {
                Err(Error::NoInstalledBinaries { dir })
            } else if binaries.len() == 1 {
                Ok(binaries.remove(0))
            } else {
                Err(Error::AmbiguousInstalledBinaries)
            }
        },
    }
}

/// What looking for an artifact in an install root comes to.
pub enum ArtifactLookup {
    /// The lookup is over, with this outcome.
    Done(Result<String, Error>),
    /// The artifact is the single binary in `dir`: list the entries there
    /// and hand them to [`find_single_binary`].
    ListDirectory { dir: String },
}

/// Looks for the artifact in the `bin` directory of `install_root`: the
/// binary named `bin_name` when there is one, else the single binary there.
pub fn find_artifact(install_root: &str, bin_name: Option<&str>, exe_suffix: &str, separator: char) -> (r: ArtifactLookup)
    ensures
        bin_name matches Some(name) ==> (r matches ArtifactLookup::Done(res) && (res matches Ok(p)
            ==> p@ == binary_path(bin_dir(install_root@, separator), name@, exe_suffix@, separator))
            && (res matches Err(e) ==> (e matches Error::InvalidArtifactPath { path } && path@
            == binary_path(bin_dir(install_root@, separator), name@, exe_suffix@, separator)))),
        bin_name is None ==> (r matches ArtifactLookup::ListDirectory { dir } && dir@ == bin_dir(
            install_root@,
            separator,
        )),
{
    let dir = join_path_str(install_root, "bin", separator);
    match bin_name {
        Some(name) => ArtifactLookup::Done(find_binary_with_name(dir.as_str(), name, exe_suffix, separator)),
        None => ArtifactLookup::ListDirectory { dir },
    }
}

/// Whether a failed lookup only says that nothing is installed yet: the
/// `bin` directory is missing, holds no binary, or lacks the named one.
pub open spec fn means_not_installed(e: Error) -> bool {
    ||| e matches Error::Io(io) && io.kind == IoErrorKind::NotFound
    ||| e is NoInstalledBinaries
    ||| e is InvalidArtifactPath
}

/// Reads the outcome of a lookup in an install root as a cache check: the
/// path when the artifact is there, `None` when nothing is installed yet,
/// and any other error passed on.
pub fn cached_artifact(found: Result<String, Error>) -> (r: Result<Option<String>, Error>)
    ensures
        r == (match found {
            Ok(p) => Ok(Some(p)),
            Err(e) => if means_not_installed(e) {
                Ok(None)
            } else {
                Err(e)
            },
        }),
{
    match found {
        Ok(p) => Ok(Some(p)),
        Err(Error::Io(e)) => {
            match e.kind {
                IoErrorKind::NotFound => Ok(None),
                IoErrorKind::Other => Err(Error::Io(e)),
            }
        },
        Err(Error::NoInstalledBinaries { .. }) => Ok(None),
        Err(Error::InvalidArtifactPath { .. }) => Ok(None),
        Err(e) => Err(e),
    }
}

} // verus!
