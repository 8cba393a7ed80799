//! Building an artifact with `cargo install`, and the decisions of a
//! resolution around it.

use vstd::prelude::*;

use cargo_install::{CargoInstall, CargoInstallBuilder, CargoInstallBuilderError, CargoInstallError};

use crate::dependency::{ArtifactDependency, BuildProfile};
use crate::error::Error;
use crate::lookup::means_not_installed;

verus! {

/// A configured `cargo install` invocation of `cargo_install`.
#[verifier::external_type_specification]
#[verifier::external_body]
pub struct ExCargoInstall(CargoInstall);

/// The builder of `cargo_install` for [`CargoInstall`].
#[verifier::external_type_specification]
#[verifier::external_body]
pub struct ExCargoInstallBuilder(CargoInstallBuilder);

/// The error type of the `cargo_install` builder.
#[verifier::external_type_specification]
#[verifier::external_body]
pub struct ExCargoInstallBuilderError(CargoInstallBuilderError);

/// The options a `cargo_install` builder has been given: the name of each
/// option set (the field of `CargoInstall` it fills) and its value as text,
/// a flag as `"true"` or `"false"`. Its feature list, extra arguments and
/// stdout setting are not part of it.
pub uninterp spec fn cargo_builder_settings(b: CargoInstallBuilder) -> Map<Seq<char>, Seq<char>>;

/// The options a `CargoInstall` holds, by field name, as text: each
/// optional field that holds a value, and every flag (`"true"` or
/// `"false"`). Its feature list, extra arguments and stdout setting are not
/// part of it.
pub uninterp spec fn cargo_install_settings(c: CargoInstall) -> Map<Seq<char>, Seq<char>>;

/// No option set.
pub open spec fn no_settings() -> Map<Seq<char>, Seq<char>> {
    Map::empty()
}

/// The flags of a `CargoInstall` that no option was given for: each takes
/// the struct's default, `false`.
pub open spec fn install_flag_defaults() -> Map<Seq<char>, Seq<char>> {
    no_settings().insert("force"@, bool_text(false)).insert("locked"@, bool_text(false)).insert(
        "debug"@,
        bool_text(false),
    ).insert("all_features"@, bool_text(false)).insert("no_default_features"@, bool_text(false))
}

/// A flag's value as text.
pub open spec fn bool_text(b: bool) -> Seq<char> {
    if b {
        "true"@
    } else {
        "false"@
    }
}

/// `CargoInstallBuilder::default`: a builder with no option set.
#[verifier::external_body]
fn cargo_builder() -> (r: CargoInstallBuilder)
    ensures
        cargo_builder_settings(r) == no_settings(),
{
    CargoInstallBuilder::default()
}

/// `CargoInstallBuilder::crate_name`: sets the crate to install.
#[verifier::external_body]
fn cargo_crate_name(b: CargoInstallBuilder, value: &str) -> (r: CargoInstallBuilder)
    ensures
        cargo_builder_settings(r) == cargo_builder_settings(b).insert("crate_name"@, value@),
{
    b.crate_name(value)
}

/// `CargoInstallBuilder::root`: sets `--root`.
#[verifier::external_body]
fn cargo_root(b: CargoInstallBuilder, value: &str) -> (r: CargoInstallBuilder)
    ensures
        cargo_builder_settings(r) == cargo_builder_settings(b).insert("root"@, value@),
{
    b.root(value)
}

/// `CargoInstallBuilder::locked`: sets whether `--locked` is passed.
#[verifier::external_body]
fn cargo_locked(b: CargoInstallBuilder, value: bool) -> (r: CargoInstallBuilder)
    ensures
        cargo_builder_settings(r) == cargo_builder_settings(b).insert("locked"@, bool_text(value)),
{
    b.locked(value)
}

/// `CargoInstallBuilder::version`: sets `--version`.
#[verifier::external_body]
fn cargo_version(b: CargoInstallBuilder, value: &str) -> (r: CargoInstallBuilder)
    ensures
        cargo_builder_settings(r) == cargo_builder_settings(b).insert("version"@, value@),
{
    b.version(value)
}

/// `CargoInstallBuilder::bin`: sets `--bin`.
#[verifier::external_body]
fn cargo_bin(b: CargoInstallBuilder, value: &str) -> (r: CargoInstallBuilder)
    ensures
        cargo_builder_settings(r) == cargo_builder_settings(b).insert("bin"@, value@),
{
    b.bin(value)
}

/// `CargoInstallBuilder::target`: sets `--target`.
#[verifier::external_body]
fn cargo_target(b: CargoInstallBuilder, value: &str) -> (r: CargoInstallBuilder)
    ensures
        cargo_builder_settings(r) == cargo_builder_settings(b).insert("target"@, value@),
{
    b.target(value)
}

/// `CargoInstallBuilder::debug`: sets whether `--debug` is passed.
#[verifier::external_body]
fn cargo_debug(b: CargoInstallBuilder, value: bool) -> (r: CargoInstallBuilder)
    ensures
        cargo_builder_settings(r) == cargo_builder_settings(b).insert("debug"@, bool_text(value)),
{
    b.debug(value)
}

/// `CargoInstallBuilder::profile`: sets `--profile`.
#[verifier::external_body]
fn cargo_profile(b: CargoInstallBuilder, value: &str) -> (r: CargoInstallBuilder)
    ensures
        cargo_builder_settings(r) == cargo_builder_settings(b).insert("profile"@, value@),
{
    b.profile(value)
}

/// `CargoInstallBuilder::build`: every field of `CargoInstall` has a
/// default, so building succeeds. The invocation holds the options set on
/// the builder; an optional field never set holds no value, and a flag never
/// set is `false`.
#[verifier::external_body]
fn cargo_build(b: CargoInstallBuilder) -> (r: Result<CargoInstall, CargoInstallBuilderError>)
    ensures
        r is Ok,
        r is Ok ==> cargo_install_settings(r->Ok_0) == install_flag_defaults().union_prefer_right(
            cargo_builder_settings(b),
        ),
{
    b.build()
}

impl ArtifactDependency {
    /// The options of the `cargo install` run that builds this dependency
    /// into `install_root`: every flag, `false` unless given below; the
    /// crate, the root and the lockfile flag always; the version, binary and
    /// target when set; `debug` for the debug profile and `profile` for a
    /// custom one.
    pub open spec fn install_settings(self, install_root: Seq<char>) -> Map<Seq<char>, Seq<char>> {
        install_flag_defaults().union_prefer_right(self.install_options(install_root))
    }

    /// The options that the builder is given for this dependency.
    pub open spec fn install_options(self, install_root: Seq<char>) -> Map<Seq<char>, Seq<char>> {
        let m = no_settings().insert("crate_name"@, self.crate_name@).insert("root"@, install_root).insert(
            "locked"@,
            bool_text(self.locked),
        );
        let m = match self.version {
            Some(v) => m.insert("version"@, v@),
            None => m,
        };
        let m = match self.bin_name {
            Some(v) => m.insert("bin"@, v@),
            None => m,
        };
        let m = match self.target {
            Some(v) => m.insert("target"@, v@),
            None => m,
        };
        let m = if self.profile is Debug {
            m.insert("debug"@, bool_text(true))
        } else {
            m
        };
        match self.profile {
            BuildProfile::Custom(p) => m.insert("profile"@, p@),
            _ => m,
        }
    }

    /// The `cargo install` invocation that builds this dependency into
    /// `install_root`.
    pub fn install_command(&self, install_root: &str) -> (c: CargoInstall)
        ensures
            cargo_install_settings(c) == self.install_settings(install_root@),
    {
        let mut b = cargo_builder();
        b = cargo_crate_name(b, self.crate_name.as_str());
        b = cargo_root(b, install_root);
        b = cargo_locked(b, self.locked);
        match &self.version {
            Some(v) => {
                b = cargo_version(b, v.as_str());
            },
            None => {},
        }
        match &self.bin_name {
            Some(v) => {
                b = cargo_bin(b, v.as_str());
            },
            None => {},
        }
        match &self.target {
            Some(v) => {
                b = cargo_target(b, v.as_str());
            },
            None => {},
        }
        match &self.profile {
            BuildProfile::Debug => {
                b = cargo_debug(b, true);
            },
            _ => {},
        }
        match &self.profile {
            BuildProfile::Custom(p) => {
                b = cargo_profile(b, p.as_str());
            },
            _ => {},
        }
        match cargo_build(b) {
            Ok(c) => c,
            Err(_) => vstd::pervasive::unreached(),
        }
    }
}

/// The `cargo install` run of a dependency passes `--locked` exactly when the
/// dependency is locked, whatever its profile, and `--debug` exactly when
/// its profile is the debug profile; it always names the crate and the
/// install root; it passes the version, the binary and the target exactly
/// when each is set, and `--profile` exactly for a custom profile; and it
/// never forces, nor changes the crate's features.
pub proof fn lemma_install_settings_fields(dep: ArtifactDependency, install_root: Seq<char>)
    ensures
        dep.install_settings(install_root).contains_key("locked"@),
        dep.install_settings(install_root)["locked"@] == if dep.locked {
            "true"@
        } else {
            "false"@
        },
        dep.install_settings(install_root).contains_key("debug"@),
        dep.install_settings(install_root)["debug"@] == if dep.profile is Debug {
            "true"@
        } else {
            "false"@
        },
        dep.install_settings(install_root).contains_key("crate_name"@),
        dep.install_settings(install_root)["crate_name"@] == dep.crate_name@,
        dep.install_settings(install_root).contains_key("root"@),
        dep.install_settings(install_root)["root"@] == install_root,
        dep.install_settings(install_root).contains_key("version"@) <==> dep.version is Some,
        dep.version matches Some(v) ==> dep.install_settings(install_root)["version"@] == v@,
        dep.install_settings(install_root).contains_key("bin"@) <==> dep.bin_name is Some,
        dep.bin_name matches Some(v) ==> dep.install_settings(install_root)["bin"@] == v@,
        dep.install_settings(install_root).contains_key("target"@) <==> dep.target is Some,
        dep.target matches Some(v) ==> dep.install_settings(install_root)["target"@] == v@,
        dep.install_settings(install_root).contains_key("profile"@) <==> dep.profile is Custom,
        dep.profile matches BuildProfile::Custom(p) ==> dep.install_settings(install_root)["profile"@]
            == p@,
        dep.install_settings(install_root).contains_key("force"@),
        dep.install_settings(install_root)["force"@] == "false"@,
        dep.install_settings(install_root).contains_key("all_features"@),
        dep.install_settings(install_root)["all_features"@] == "false"@,
        dep.install_settings(install_root).contains_key("no_default_features"@),
        dep.install_settings(install_root)["no_default_features"@] == "false"@,
{
    reveal_strlit("locked");
    reveal_strlit("debug");
    reveal_strlit("crate_name");
    reveal_strlit("root");
    reveal_strlit("version");
    reveal_strlit("bin");
    reveal_strlit("target");
    reveal_strlit("profile");
    reveal_strlit("force");
    reveal_strlit("all_features");
    reveal_strlit("no_default_features");
    reveal_strlit("true");
    reveal_strlit("false");
    assert("force"@[0] != "debug"@[0]);
    assert("locked"@[0] != "target"@[0]);
    assert("version"@[0] != "profile"@[0]);
    let m = dep.install_options(install_root);
    assert(m.contains_key("crate_name"@) && m["crate_name"@] == dep.crate_name@) by {
        assert("crate_name"@.len() != "root"@.len());
        assert("crate_name"@.len() != "locked"@.len());
        assert("crate_name"@.len() != "version"@.len());
        assert("crate_name"@.len() != "bin"@.len());
        assert("crate_name"@.len() != "target"@.len());
        assert("crate_name"@.len() != "debug"@.len());
        assert("crate_name"@.len() != "profile"@.len());
    }
    assert(m.contains_key("root"@) && m["root"@] == install_root) by {
        assert("root"@.len() != "locked"@.len());
        assert("root"@.len() != "version"@.len());
        assert("root"@.len() != "bin"@.len());
        assert("root"@.len() != "target"@.len());
        assert("root"@.len() != "debug"@.len());
        assert("root"@.len() != "profile"@.len());
    }
    assert(m.contains_key("bin"@) <==> dep.bin_name is Some) by {
        assert("bin"@.len() != "crate_name"@.len());
        assert("bin"@.len() != "root"@.len());
        assert("bin"@.len() != "locked"@.len());
        assert("bin"@.len() != "version"@.len());
        assert("bin"@.len() != "target"@.len());
        assert("bin"@.len() != "debug"@.len());
        assert("bin"@.len() != "profile"@.len());
    }
    assert(!m.contains_key("all_features"@)) by {
        assert("all_features"@.len() != "crate_name"@.len());
        assert("all_features"@.len() != "root"@.len());
        assert("all_features"@.len() != "locked"@.len());
        assert("all_features"@.len() != "version"@.len());
        assert("all_features"@.len() != "bin"@.len());
        assert("all_features"@.len() != "target"@.len());
        assert("all_features"@.len() != "debug"@.len());
        assert("all_features"@.len() != "profile"@.len());
    }
    assert(install_flag_defaults()["all_features"@] == "false"@) by {
        assert("all_features"@.len() != "no_default_features"@.len());
    }
    assert(!install_flag_defaults().contains_key("bin"@)) by {
        assert("bin"@.len() != "force"@.len());
        assert("bin"@.len() != "no_default_features"@.len());
        assert("bin"@.len() != "all_features"@.len());
    }
}

/// What a resolution does next.
pub enum ResolveAction {
    /// Resolution is over, with this outcome.
    Finish(Result<String, Error>),
    /// Run this `cargo install` invocation, hand its outcome to
    /// [`install_result`], then look the artifact up again.
    Install(CargoInstall),
}

impl ArtifactDependency {
    /// Decides, from what a lookup in the install root found, how resolution
    /// goes on: a found artifact is the result; when nothing is installed
    /// yet, `cargo install` must build it into the install root; any other
    /// failure is the result.
    pub fn resolve_after_lookup(&self, install_root: &str, found: Result<String, Error>) -> (r: ResolveAction)
        ensures
            (match found {
                Ok(p) => r == ResolveAction::Finish(Ok(p)),
                Err(e) => if means_not_installed(e) {
                    r matches ResolveAction::Install(c) && cargo_install_settings(c)
                        == self.install_settings(install_root@)
                } else {
                    r == ResolveAction::Finish(Err(e))
                },
            }),
    {
        match crate::lookup::cached_artifact(found) {
            Ok(Some(p)) => ResolveAction::Finish(Ok(p)),
            Ok(None) => ResolveAction::Install(self.install_command(install_root)),
            Err(e) => ResolveAction::Finish(Err(e)),
        }
    }
}

/// The outcome of a `cargo install` run as a step of resolution: its
/// failure becomes `CargoInstallFailed`.
pub fn install_result(outcome: Result<(), CargoInstallError>) -> (r: Result<(), Error>)
    ensures
        r == (match outcome {
            Ok(()) => Ok(()),
            Err(e) => Err(Error::CargoInstallFailed(e)),
        }),
{
    match outcome {
        Ok(()) => Ok(()),
        Err(e) => Err(Error::CargoInstallFailed(e)),
    }
}

} // verus!
