//! The description of an artifact dependency and its builder.

use vstd::prelude::*;

verus! {

/// The profile `cargo install` builds the artifact with.
#[derive(Clone, Debug, PartialEq, Eq)]
pub enum BuildProfile {
    Debug,
    Release,
    Custom(String),
}

impl Default for BuildProfile {
    fn default() -> (p: Self)
        ensures
            p == BuildProfile::Release,
    {
        BuildProfile::Release
    }
}

/// Describes an artifact dependency.
///
/// Use [`ArtifactDependencyBuilder`] to construct values. `crate_name` is
/// required; all other fields are optional.
#[derive(Clone, Debug, PartialEq, Eq)]
pub struct ArtifactDependency {
    /// Crate name to resolve.
    pub crate_name: String,
    /// Version requirement.
    pub version: Option<String>,
    /// Binary name.
    pub bin_name: Option<String>,
    /// Build profile.
    pub profile: BuildProfile,
    /// Target triple.
    pub target: Option<String>,
    /// Whether to use the exact versions from the dependency's lockfile.
    pub locked: bool,
    /// Local path of the crate's sources, if any.
    pub path: Option<String>,
}

impl ArtifactDependency {
    /// The dependency that [`Default::default`] gives, with the crate name
    /// `crate_name`: no version, binary name, target or local path, the
    /// release profile, and locked installs.
    pub open spec fn is_default_for(&self, crate_name: Seq<char>) -> bool {
        &&& self.crate_name@ == crate_name
        &&& self.version is None
        &&& self.bin_name is None
        &&& self.profile == BuildProfile::Release
        &&& self.target is None
        &&& self.locked
        &&& self.path is None
    }
}

impl Default for ArtifactDependency {
    fn default() -> (d: Self)
        ensures
            d.is_default_for(Seq::empty()),
    {
        ArtifactDependency {
            crate_name: String::new(),
            version: None,
            bin_name: None,
            profile: BuildProfile::Release,
            target: None,
            locked: true,
            path: None,
        }
    }
}

/// Why [`ArtifactDependencyBuilder::build`] refused to build.
#[derive(Clone, Debug, PartialEq, Eq)]
pub enum ArtifactDependencyBuilderError {
    /// A required field was never set; the field's name.
    UninitializedField(String),
}

impl ArtifactDependencyBuilderError {
    /// The text of the error: "`<field>` must be initialized".
    pub open spec fn message_spec(&self) -> Seq<char> {
        match self {
            ArtifactDependencyBuilderError::UninitializedField(f) => seq!['`'] + f@ + "` must be initialized"@,
        }
    }

    /// Renders the error as text.
    pub fn message(&self) -> (m: String)
        ensures
            m@ == self.message_spec(),
    {
        match self {
            ArtifactDependencyBuilderError::UninitializedField(f) => {
                let mut m = String::from_str("`");
                m.append(f.as_str());
                m.append("` must be initialized");
                proof {
                    reveal_strlit("`");
                }
                m
            },
        }
    }
}

/// Builder for [`ArtifactDependency`]: each setter records a value, and
/// [`ArtifactDependencyBuilder::build`] fills the fields that were not set
/// with their defaults. Each field holds the value set for the field of the
/// same name, `None` while it is unset.
#[derive(Clone, Debug)]
pub struct ArtifactDependencyBuilder {
    pub crate_name: Option<String>,
    pub version: Option<Option<String>>,
    pub bin_name: Option<Option<String>>,
    pub profile: Option<BuildProfile>,
    pub target: Option<Option<String>>,
    pub locked: Option<bool>,
    pub path: Option<Option<String>>,
}

impl Default for ArtifactDependencyBuilder {
    fn default() -> (b: Self)
        ensures
            b.crate_name is None,
            b.version is None,
            b.bin_name is None,
            b.profile is None,
            b.target is None,
            b.locked is None,
            b.path is None,
    {
        ArtifactDependencyBuilder {
            crate_name: None,
            version: None,
            bin_name: None,
            profile: None,
            target: None,
            locked: None,
            path: None,
        }
    }
}

impl ArtifactDependencyBuilder {
    /// Sets the crate name to resolve.
    pub fn crate_name(self, value: &str) -> (r: Self)
        ensures
            r.crate_name is Some,
            r.crate_name->0@ == value@,
            r.version == self.version,
            r.bin_name == self.bin_name,
            r.profile == self.profile,
            r.target == self.target,
            r.locked == self.locked,
            r.path == self.path,
    {
        ArtifactDependencyBuilder { crate_name: Some(String::from_str(value)), ..self }
    }

    /// Sets the version requirement.
    pub fn version(self, value: &str) -> (r: Self)
        ensures
            r.version matches Some(Some(s)) && s@ == value@,
            r.crate_name == self.crate_name,
            r.bin_name == self.bin_name,
            r.profile == self.profile,
            r.target == self.target,
            r.locked == self.locked,
            r.path == self.path,
    {
        ArtifactDependencyBuilder { version: Some(Some(String::from_str(value))), ..self }
    }

    /// Sets the binary name.
    pub fn bin_name(self, value: &str) -> (r: Self)
        ensures
            r.bin_name matches Some(Some(s)) && s@ == value@,
            r.crate_name == self.crate_name,
            r.version == self.version,
            r.profile == self.profile,
            r.target == self.target,
            r.locked == self.locked,
            r.path == self.path,
    {
        ArtifactDependencyBuilder { bin_name: Some(Some(String::from_str(value))), ..self }
    }

    /// Sets the build profile.
    pub fn profile(self, value: BuildProfile) -> (r: Self)
        ensures
            r.profile == Some(value),
            r.crate_name == self.crate_name,
            r.version == self.version,
            r.bin_name == self.bin_name,
            r.target == self.target,
            r.locked == self.locked,
            r.path == self.path,
    {
        ArtifactDependencyBuilder { profile: Some(value), ..self }
    }

    /// Sets the target triple.
    pub fn target(self, value: &str) -> (r: Self)
        ensures
            r.target matches Some(Some(s)) && s@ == value@,
            r.crate_name == self.crate_name,
            r.version == self.version,
            r.bin_name == self.bin_name,
            r.profile == self.profile,
            r.locked == self.locked,
            r.path == self.path,
    {
        ArtifactDependencyBuilder { target: Some(Some(String::from_str(value))), ..self }
    }

    /// Sets whether installs use the dependency's lockfile.
    pub fn locked(self, value: bool) -> (r: Self)
        ensures
            r.locked == Some(value),
            r.crate_name == self.crate_name,
            r.version == self.version,
            r.bin_name == self.bin_name,
            r.profile == self.profile,
            r.target == self.target,
            r.path == self.path,
    {
        ArtifactDependencyBuilder { locked: Some(value), ..self }
    }

    /// Sets the local path of the crate's sources.
    pub fn path(self, value: &str) -> (r: Self)
        ensures
            r.path matches Some(Some(s)) && s@ == value@,
            r.crate_name == self.crate_name,
            r.version == self.version,
            r.bin_name == self.bin_name,
            r.profile == self.profile,
            r.target == self.target,
            r.locked == self.locked,
    {
        ArtifactDependencyBuilder { path: Some(Some(String::from_str(value))), ..self }
    }

    /// The dependency that `build` makes of this builder: `None` when the
    /// crate name was never set; otherwise each field set takes its value
    /// and each other field its default (no version, binary name, target or
    /// local path, the release profile, locked installs).
    pub open spec fn built(self) -> Option<ArtifactDependency> {
        match self.crate_name {
            None => None,
            Some(crate_name) => Some(
                ArtifactDependency {
                    crate_name,
                    version: match self.version {
                        Some(v) => v,
                        None => None,
                    },
                    bin_name: match self.bin_name {
                        Some(v) => v,
                        None => None,
                    },
                    profile: match self.profile {
                        Some(p) => p,
                        None => BuildProfile::Release,
                    },
                    target: match self.target {
                        Some(v) => v,
                        None => None,
                    },
                    locked: match self.locked {
                        Some(l) => l,
                        None => true,
                    },
                    path: match self.path {
                        Some(v) => v,
                        None => None,
                    },
                },
            ),
        }
    }

    /// Builds the dependency; fails exactly when the crate name was never set.
    pub fn build(self) -> (r: Result<ArtifactDependency, ArtifactDependencyBuilderError>)
        ensures
            self.built() matches Some(d) ==> r == Ok::<ArtifactDependency, ArtifactDependencyBuilderError>(d),
            self.built() is None ==> (r matches Err(ArtifactDependencyBuilderError::UninitializedField(f)) && f@ == "crate_name"@),
    {
        match self.crate_name {
            None => Err(ArtifactDependencyBuilderError::UninitializedField(String::from_str("crate_name"))),
            Some(crate_name) => Ok(
                ArtifactDependency {
                    crate_name,
                    version: match self.version {
                        Some(v) => v,
                        None => None,
                    },
                    bin_name: match self.bin_name {
                        Some(v) => v,
                        None => None,
                    },
                    profile: match self.profile {
                        Some(p) => p,
                        None => BuildProfile::Release,
                    },
                    target: match self.target {
                        Some(v) => v,
                        None => None,
                    },
                    locked: match self.locked {
                        Some(l) => l,
                        None => true,
                    },
                    path: match self.path {
                        Some(v) => v,
                        None => None,
                    },
                },
            ),
        }
    }
}

/// A builder whose crate name is set builds a dependency in which every
/// field holds the value last set for it, whatever the other fields hold,
/// and each field never set holds its default: no version, binary name,
/// target or local path, the release profile, locked installs.
pub proof fn lemma_build_keeps_each_field(b: ArtifactDependencyBuilder)
    requires
        b.crate_name is Some,
    ensures
        b.built() is Some,
        b.built()->0.crate_name == b.crate_name->0,
        b.version matches Some(v) ==> b.built()->0.version == v,
        b.version is None ==> b.built()->0.version is None,
        b.bin_name matches Some(v) ==> b.built()->0.bin_name == v,
        b.bin_name is None ==> b.built()->0.bin_name is None,
        b.profile matches Some(p) ==> b.built()->0.profile == p,
        b.profile is None ==> b.built()->0.profile == BuildProfile::Release,
        b.target matches Some(v) ==> b.built()->0.target == v,
        b.target is None ==> b.built()->0.target is None,
        b.locked matches Some(l) ==> b.built()->0.locked == l,
        b.locked is None ==> b.built()->0.locked,
        b.path matches Some(v) ==> b.built()->0.path == v,
        b.path is None ==> b.built()->0.path is None,
{
}

/// A builder on which only the crate name was set builds the dependency that
/// `Default::default` describes, with that crate name.
pub proof fn lemma_builder_defaults_match_default(b: ArtifactDependencyBuilder)
    requires
        b.crate_name is Some,
        b.version is None,
        b.bin_name is None,
        b.profile is None,
        b.target is None,
        b.locked is None,
        b.path is None,
    ensures
        b.built() matches Some(d) && d.is_default_for(b.crate_name->0@),
{
}

} // verus!
