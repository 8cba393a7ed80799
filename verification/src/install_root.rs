//! The stable install root of a dependency: a directory under the temporary
//! directory whose name is made of the dependency's settings.

use vstd::prelude::*;

use crate::dependency::{ArtifactDependency, BuildProfile};
use crate::naming::{
    is_path_safe_char, is_separator, join_path, join_path_str, join_with, join_with_separator,
    lemma_join_path_safe, lemma_join_separates, lemma_sanitize_keeps_safe, lemma_sanitized_path_safe,
    sanitize_path_component,
    sanitized, views,
};

verus! {

/// The name of the build profile in install-root names.
pub open spec fn profile_name(p: BuildProfile) -> Seq<char> {
    match p {
        BuildProfile::Debug => "debug"@,
        BuildProfile::Release => "release"@,
        BuildProfile::Custom(name) => name@,
    }
}

/// The value of an optional string, or `default` when there is none.
pub open spec fn or_default(o: Option<String>, default: Seq<char>) -> Seq<char> {
    match o {
        Some(s) => s@,
        None => default,
    }
}

/// The settings that name the install root of `dep`, in order: crate name,
/// version (`any` when unset), the local path when it exists, binary name
/// (`any-bin`), profile, target (`host`) and `locked` or `unlocked`.
pub open spec fn root_components(dep: ArtifactDependency, local_path: Option<Seq<char>>) -> Seq<Seq<char>> {
    seq![dep.crate_name@, or_default(dep.version, "any"@)] + match local_path {
        Some(p) => seq![p],
        None => Seq::empty(),
    } + seq![
        or_default(dep.bin_name, "any-bin"@),
        profile_name(dep.profile),
        or_default(dep.target, "host"@),
        if dep.locked {
            "locked"@
        } else {
            "unlocked"@
        },
    ]
}

/// The directory name of the install root: the sanitised settings joined
/// with `__`.
pub open spec fn install_root_name(dep: ArtifactDependency, local_path: Option<Seq<char>>) -> Seq<char> {
    join_with(root_components(dep, local_path).map_values(|c: Seq<char>| sanitized(c)), "__"@)
}

/// The install root of `dep` under the temporary directory `temp_dir`.
pub open spec fn install_root_path(
    dep: ArtifactDependency,
    temp_dir: Seq<char>,
    local_path: Option<Seq<char>>,
    separator: char,
) -> Seq<char> {
    join_path(
        join_path(temp_dir, "cargo-artifact-dependency"@, separator),
        install_root_name(dep, local_path),
        separator,
    )
}

/// The view of an optional string slice.
pub open spec fn str_opt_view(o: Option<&str>) -> Option<Seq<char>> {
    match o {
        Some(s) => Some(s@),
        None => None,
    }
}

/// `Path::exists`: whether `path` names something on disk. The answer
/// depends on the file system at the time of the call, so nothing is stated
/// of it.
#[verifier::external_body]
fn path_exists(path: &str) -> bool {
    std::path::Path::new(path).exists()
}

fn str_or<'a>(o: &'a Option<String>, default: &'a str) -> (r: &'a str)
    ensures
        r@ == match o {
            Some(s) => s@,
            None => default@,
        },
{
    match o {
        Some(s) => s.as_str(),
        None => default,
    }
}

/// The local path `path` as the install root sees it, given whether it
/// exists on disk: the path when it exists, `None` when it does not.
pub fn existing_path(path: &str, exists: bool) -> (r: Option<&str>)
    ensures
        exists ==> r == Some(path),
        !exists ==> r is None,
{
    if exists {
        Some(path)
    } else {
        None
    }
}

impl ArtifactDependency {
    /// The local path of the crate's sources, if it is set and exists on
    /// disk; otherwise `None`.
    pub fn path(&self) -> (r: Option<&str>)
        ensures
            r matches Some(p) ==> (self.path matches Some(q) && p@ == q@),
            self.path is None ==> r is None,
    {
        match &self.path {
            None => None,
            Some(p) => {
                let exists = path_exists(p.as_str());
                existing_path(p.as_str(), exists)
            },
        }
    }

    /// The install root under `temp_dir`, given the local path that exists
    /// (`None` when there is none), on a host whose main path separator is
    /// `separator`.
    pub fn install_root_for(&self, temp_dir: &str, local_path: Option<&str>, separator: char) -> (r: String)
        ensures
            r@ == install_root_path(*self, temp_dir@, str_opt_view(local_path), separator),
    {
        let profile = match &self.profile {
            BuildProfile::Debug => "debug",
            BuildProfile::Release => "release",
            BuildProfile::Custom(p) => p.as_str(),
        };
        let mut parts: Vec<String> = Vec::new();
        parts.push(sanitize_path_component(self.crate_name.as_str()));
        parts.push(sanitize_path_component(str_or(&self.version, "any")));
        match local_path {
            Some(p) => parts.push(sanitize_path_component(p)),
            None => {},
        }
        parts.push(sanitize_path_component(str_or(&self.bin_name, "any-bin")));
        parts.push(sanitize_path_component(profile));
        parts.push(sanitize_path_component(str_or(&self.target, "host")));
        parts.push(sanitize_path_component(if self.locked { "locked" } else { "unlocked" }));
        let name = join_with_separator(&parts, "__");
        assert(views(parts@) =~= root_components(*self, str_opt_view(local_path)).map_values(
            |c: Seq<char>| sanitized(c),
        ));
        let base = join_path_str(temp_dir, "cargo-artifact-dependency", separator);
        join_path_str(base.as_str(), name.as_str(), separator)
    }

    /// The install root under `temp_dir`: named after the dependency's
    /// settings, with the local path among them when it exists on disk, on a
    /// host whose main path separator is `separator`.
    pub fn install_root(&self, temp_dir: &str, separator: char) -> (r: String)
        ensures
            r@ == install_root_path(*self, temp_dir@, None, separator) || (self.path matches Some(p)
                && r@ == install_root_path(*self, temp_dir@, Some(p@), separator)),
            self.path is None ==> r@ == install_root_path(*self, temp_dir@, None, separator),
    {
        let local = self.path();
        self.install_root_for(temp_dir, local, separator)
    }
}


/// The install-root name is a single path component: every character of it
/// is an ASCII letter or digit, `.`, `-` or `_`, so it holds no `/`.
pub proof fn lemma_install_root_name_path_safe(dep: ArtifactDependency, local_path: Option<Seq<char>>)
    ensures
        forall|k: int|
            0 <= k < install_root_name(dep, local_path).len() ==> is_path_safe_char(
                #[trigger] install_root_name(dep, local_path)[k],
            ),
{
    let comps = root_components(dep, local_path);
    let parts = comps.map_values(|c: Seq<char>| sanitized(c));
    assert forall|i: int, k: int| 0 <= i < parts.len() && 0 <= k < parts[i].len() implies is_path_safe_char(
        #[trigger] parts[i][k],
    ) by {
        lemma_sanitized_path_safe(comps[i]);
    }
    reveal_strlit("__");
    lemma_join_path_safe(parts, "__"@);
}

/// Two dependencies whose install-root settings agree everywhere but at one
/// place, where their sanitised values differ, get different install roots
/// under the same temporary directory, on a host whose separator is no
/// character an install-root name can hold.
pub proof fn lemma_install_root_separates(
    a: ArtifactDependency,
    la: Option<Seq<char>>,
    b: ArtifactDependency,
    lb: Option<Seq<char>>,
    temp_dir: Seq<char>,
    separator: char,
    i: int,
)
    requires
        !is_path_safe_char(separator),
        root_components(a, la).len() == root_components(b, lb).len(),
        0 <= i < root_components(a, la).len(),
        forall|j: int|
            0 <= j < root_components(a, la).len() && j != i ==> root_components(a, la)[j]
                == root_components(b, lb)[j],
        sanitized(root_components(a, la)[i]) != sanitized(root_components(b, lb)[i]),
    ensures
        install_root_name(a, la) != install_root_name(b, lb),
        install_root_path(a, temp_dir, la, separator) != install_root_path(b, temp_dir, lb, separator),
{
    let pa = root_components(a, la).map_values(|c: Seq<char>| sanitized(c));
    let pb = root_components(b, lb).map_values(|c: Seq<char>| sanitized(c));
    if install_root_name(a, la) == install_root_name(b, lb) {
        lemma_join_separates(pa, pb, "__"@, i);
    }
    let base = join_path(temp_dir, "cargo-artifact-dependency"@, separator);
    let na = install_root_name(a, la);
    let nb = install_root_name(b, lb);
    lemma_install_root_name_path_safe(a, la);
    lemma_install_root_name_path_safe(b, lb);
    if na.len() > 0 {
        assert(is_path_safe_char(na[0]));
    }
    if nb.len() > 0 {
        assert(is_path_safe_char(nb[0]));
    }
    if join_path(base, na, separator) == join_path(base, nb, separator) {
        if base.len() == 0 {
        } else if is_separator(base.last(), separator) {
            assert(na =~= (base + na).subrange(base.len() as int, (base + na).len() as int));
            assert(nb =~= (base + nb).subrange(base.len() as int, (base + nb).len() as int));
        } else {
            let p = base.push(separator);
            assert(na =~= (p + na).subrange(p.len() as int, (p + na).len() as int));
            assert(nb =~= (p + nb).subrange(p.len() as int, (p + nb).len() as int));
        }
    }
}

/// The install-root name of a dependency is its sanitised crate name,
/// version (`any` when unset), local path (when one exists), binary name
/// (`any-bin` when unset), profile name and target (`host` when unset),
/// then `locked` or `unlocked`, each two joined by `__`. In particular the
/// version stands in it whenever it is set, whatever the other settings.
pub proof fn lemma_install_root_name_fields(dep: ArtifactDependency, local_path: Option<Seq<char>>)
    ensures
        install_root_name(dep, local_path) == sanitized(dep.crate_name@) + "__"@ + sanitized(
            match dep.version {
                Some(v) => v@,
                None => "any"@,
            },
        ) + "__"@ + match local_path {
            Some(p) => sanitized(p) + "__"@,
            None => Seq::empty(),
        } + sanitized(
            match dep.bin_name {
                Some(b) => b@,
                None => "any-bin"@,
            },
        ) + "__"@ + sanitized(
            match dep.profile {
                BuildProfile::Debug => "debug"@,
                BuildProfile::Release => "release"@,
                BuildProfile::Custom(p) => p@,
            },
        ) + "__"@ + sanitized(
            match dep.target {
                Some(t) => t@,
                None => "host"@,
            },
        ) + "__"@ + if dep.locked {
            "locked"@
        } else {
            "unlocked"@
        },
{
    let sep = "__"@;
    let parts = root_components(dep, local_path).map_values(|c: Seq<char>| sanitized(c));
    let c0 = sanitized(dep.crate_name@);
    let c1 = sanitized(or_default(dep.version, "any"@));
    let c3 = sanitized(or_default(dep.bin_name, "any-bin"@));
    let c4 = sanitized(profile_name(dep.profile));
    let c5 = sanitized(or_default(dep.target, "host"@));
    let last = if dep.locked {
        "locked"@
    } else {
        "unlocked"@
    };
    assert(sanitized(last) == last) by {
        reveal_strlit("locked");
        reveal_strlit("unlocked");
        lemma_sanitize_keeps_safe(last);
    }
    let mid = match local_path {
        Some(p) => sanitized(p) + sep,
        None => Seq::empty(),
    };
    let head = match local_path {
        Some(p) => seq![c0, c1, sanitized(p)],
        None => seq![c0, c1],
    };
    let jh = join_with(head, sep);
    assert(jh + sep == c0 + sep + c1 + sep + mid) by {
        lemma_join_push(seq![c0], c1, sep);
        assert(seq![c0].push(c1) =~= seq![c0, c1]);
        match local_path {
            Some(p) => {
                lemma_join_push(seq![c0, c1], sanitized(p), sep);
                assert(seq![c0, c1].push(sanitized(p)) =~= head);
                assert(jh + sep =~= c0 + sep + c1 + sep + mid);
            },
            None => {
                assert(jh + sep =~= c0 + sep + c1 + sep + mid);
            },
        }
    }
    let h3 = head.push(c3);
    let h4 = h3.push(c4);
    let h5 = h4.push(c5);
    let h6 = h5.push(last);
    assert(parts =~= h6);
    lemma_join_push(head, c3, sep);
    lemma_join_push(h3, c4, sep);
    lemma_join_push(h4, c5, sep);
    lemma_join_push(h5, last, sep);
    assert(join_with(h6, sep) =~= c0 + sep + c1 + sep + mid + c3 + sep + c4 + sep + c5 + sep + last);
    assert(dep.version matches Some(v) ==> or_default(dep.version, "any"@) == v@);
}

/// Appending a part to at least one part appends the separator and the part
/// to their join.
proof fn lemma_join_push(parts: Seq<Seq<char>>, x: Seq<char>, sep: Seq<char>)
    requires
        parts.len() >= 1,
    ensures
        join_with(parts.push(x), sep) == join_with(parts, sep) + sep + x,
{
    assert(parts.push(x).drop_last() =~= parts);
}

/// Two dependencies that differ only in their version, where the sanitised
/// versions (`any` standing for an unset one) differ, get different install
/// roots under the same temporary directory and local path, on a host whose
/// main separator is `/` or `\`: a binary installed for one version is
/// never found for another.
pub proof fn lemma_install_root_separates_versions(
    a: ArtifactDependency,
    b: ArtifactDependency,
    temp_dir: Seq<char>,
    local_path: Option<Seq<char>>,
    separator: char,
)
    requires
        separator == '/' || separator == '\\',
        a.crate_name@ == b.crate_name@,
        a.bin_name == b.bin_name,
        a.profile == b.profile,
        a.target == b.target,
        a.locked == b.locked,
        sanitized(
            match a.version {
                Some(v) => v@,
                None => "any"@,
            },
        ) != sanitized(
            match b.version {
                Some(v) => v@,
                None => "any"@,
            },
        ),
    ensures
        install_root_name(a, local_path) != install_root_name(b, local_path),
        install_root_path(a, temp_dir, local_path, separator) != install_root_path(
            b,
            temp_dir,
            local_path,
            separator,
        ),
{
    let ca = root_components(a, local_path);
    let cb = root_components(b, local_path);
    assert(or_default(a.version, "any"@) == match a.version {
        Some(v) => v@,
        None => "any"@,
    });
    assert(or_default(b.version, "any"@) == match b.version {
        Some(v) => v@,
        None => "any"@,
    });
    assert forall|j: int| 0 <= j < ca.len() && j != 1 implies ca[j] == cb[j] by {}
    lemma_install_root_separates(a, local_path, b, local_path, temp_dir, separator, 1);
}

/// The install root depends on nothing but the install-root settings and the
/// temporary directory: equal settings give equal roots.
pub proof fn lemma_install_root_stable(
    a: ArtifactDependency,
    la: Option<Seq<char>>,
    b: ArtifactDependency,
    lb: Option<Seq<char>>,
    temp_dir: Seq<char>,
    separator: char,
)
    requires
        root_components(a, la) == root_components(b, lb),
    ensures
        install_root_path(a, temp_dir, la, separator) == install_root_path(b, temp_dir, lb, separator),
{
}

} // verus!
