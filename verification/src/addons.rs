//! Addon bookkeeping shared by the build tooling: where an addon lives,
//! its prefix, its per-addon configuration, and the validation that no two
//! discovered addons collide. Reading folders and files off disk is the
//! caller's business; this module owns the rules applied to what was
//! read.

use vstd::prelude::*;

verus! {

/// Faults of addon discovery and layout.
#[derive(Debug)]
pub enum Error {
    /// A second addon whose name differs only in case.
    AddonNameDuplicate(String),
    /// An addon present in both locations.
    AddonDuplicate(String),
    /// A folder that is not a valid addon location or name.
    AddonLocationInvalid(String),
    /// An optional addon that was named but not found.
    AddonOptionalNotFound(String),
    /// An addon without a prefix file.
    AddonPrefixMissing(String),
}

impl PartialEq for Error {
    fn eq(&self, other: &Error) -> (r: bool) {
        match (self, other) {
            (Error::AddonNameDuplicate(a), Error::AddonNameDuplicate(b)) => *a == *b,
            (Error::AddonDuplicate(a), Error::AddonDuplicate(b)) => *a == *b,
            (Error::AddonLocationInvalid(a), Error::AddonLocationInvalid(b)) => *a == *b,
            (Error::AddonOptionalNotFound(a), Error::AddonOptionalNotFound(b)) => *a == *b,
            (Error::AddonPrefixMissing(a), Error::AddonPrefixMissing(b)) => *a == *b,
            _ => false,
        }
    }
}

impl vstd::std_specs::cmp::PartialEqSpecImpl for Error {
    open spec fn obeys_eq_spec() -> bool {
        true
    }

    open spec fn eq_spec(&self, other: &Error) -> bool {
        match (self, other) {
            (Error::AddonNameDuplicate(a), Error::AddonNameDuplicate(b)) => a@ == b@,
            (Error::AddonDuplicate(a), Error::AddonDuplicate(b)) => a@ == b@,
            (Error::AddonLocationInvalid(a), Error::AddonLocationInvalid(b)) => a@ == b@,
            (Error::AddonOptionalNotFound(a), Error::AddonOptionalNotFound(b)) => a@ == b@,
            (Error::AddonPrefixMissing(a), Error::AddonPrefixMissing(b)) => a@ == b@,
            _ => false,
        }
    }
}

/// What `str::to_lowercase` returns for the given characters: the result
/// depends on the characters alone.
pub uninterp spec fn lower_of(s: Seq<char>) -> Seq<char>;

/// Relies on `str::to_lowercase`: the lowercased form of the input,
/// depending on its characters alone.
#[verifier::external_body]
fn to_lowercase(s: &str) -> (r: String)
    ensures
        r@ == lower_of(s@),
{
    s.to_lowercase()
}

/// Relies on `str`'s `PartialEq`: character-for-character equality.
#[verifier::external_body]
fn str_eq(a: &str, b: &str) -> (r: bool)
    ensures
        r == (a@ == b@),
{
    a == b
}

/// The two folders addons are discovered in.
#[derive(Debug, Clone, Copy, PartialEq, Eq, Structural)]
pub enum Location {
    /// `addons`: always built.
    Addons,
    /// `optionals`: built on request.
    Optionals,
}

impl Location {
    /// The folder name of this location.
    pub open spec fn spec_name(&self) -> Seq<char> {
        match self {
            Location::Addons => "addons"@,
            Location::Optionals => "optionals"@,
        }
    }

    /// The folder name of this location.
    pub fn to_string(&self) -> (r: String)
        ensures
            r@ == self.spec_name(),
    {
        match self {
            Location::Addons => "addons".to_owned(),
            Location::Optionals => "optionals".to_owned(),
        }
    }

    /// Parse a folder name; exactly `addons` and `optionals` are valid,
    /// anything else is an invalid location.
    pub fn from_name(s: &str) -> (r: Result<Location, Error>)
        ensures
            s@ == "addons"@ ==> r == Ok::<Location, Error>(Location::Addons),
            s@ == "optionals"@ ==> r == Ok::<Location, Error>(Location::Optionals),
            (s@ != "addons"@ && s@ != "optionals"@) ==> (r matches Err(Error::AddonLocationInvalid(
                m,
            )) && m@ == s@),
    {
        proof {
            reveal_strlit("addons");
            reveal_strlit("optionals");
            assert("addons"@.len() != "optionals"@.len());
        }
        if str_eq(s, "addons") {
            Ok(Location::Addons)
        } else if str_eq(s, "optionals") {
            Ok(Location::Optionals)
        } else {
            Err(Error::AddonLocationInvalid(s.to_owned()))
        }
    }
}

impl core::str::FromStr for Location {
    type Err = Error;

    fn from_str(s: &str) -> (r: Result<Location, Error>) {
        Location::from_name(s)
    }
}

/// The PBO prefix of one addon, as read from its prefix file.
#[derive(Debug, PartialEq, Eq)]
pub struct Prefix {
    /// The prefix itself.
    pub value: String,
}

impl Prefix {
    /// Wrap an already-read prefix value.
    pub fn new(value: String) -> (r: Prefix)
        ensures
            r.value == value,
    {
        Prefix { value }
    }

    /// The prefix itself.
    pub fn value(&self) -> (r: &str)
        ensures
            r@ == self.value@,
    {
        self.value.as_str()
    }
}

impl Clone for Prefix {
    fn clone(&self) -> (r: Self)
        ensures
            r == *self,
    {
        Prefix { value: self.value.clone() }
    }
}

/// Per-addon build configuration, read from the addon's own configuration
/// file. Its settings belong to the build steps; discovery only carries
/// it along.
#[derive(Debug, Clone, Copy, PartialEq, Eq, Structural)]
pub struct AddonConfig {}

/// A tool version requirement.
#[derive(Debug, Clone, Copy, PartialEq, Eq, Structural)]
pub struct Version {
    /// The major component.
    pub major: u32,
    /// The minor component.
    pub minor: u32,
    /// The patch component.
    pub patch: u32,
}

impl Version {
    pub fn new(major: u32, minor: u32, patch: u32) -> (r: Version)
        ensures
            r.major == major,
            r.minor == minor,
            r.patch == patch,
    {
        Version { major, minor, patch }
    }
}

/// A path inside the build workspace, by its textual form.
#[derive(Debug, PartialEq, Eq)]
pub struct WorkspacePath {
    /// The path, as the workspace names it.
    pub path: String,
}

impl WorkspacePath {
    pub fn new(path: String) -> (r: WorkspacePath)
        ensures
            r.path == path,
    {
        WorkspacePath { path }
    }
}

impl Clone for WorkspacePath {
    fn clone(&self) -> (r: Self)
        ensures
            r == *self,
    {
        WorkspacePath { path: self.path.clone() }
    }
}

/// A version requirement together with where it was stated.
#[derive(Debug, PartialEq, Eq)]
pub struct RequiredVersion {
    /// The required version.
    pub version: Version,
    /// The file the requirement was stated in.
    pub file: WorkspacePath,
    /// The first line of the statement.
    pub start: usize,
    /// One past the last line of the statement.
    pub end: usize,
}

impl Clone for RequiredVersion {
    fn clone(&self) -> (r: Self)
        ensures
            r == *self,
    {
        RequiredVersion {
            version: self.version,
            file: self.file.clone(),
            start: self.start,
            end: self.end,
        }
    }
}

/// Data the build pipeline attaches to one addon while building it.
#[derive(Debug)]
pub struct BuildData {
    /// The version requirement found so far, if any.
    pub required_version: Option<RequiredVersion>,
}

impl BuildData {
    /// No requirement recorded yet.
    pub fn new() -> (r: BuildData)
        ensures
            r.required_version is None,
    {
        BuildData { required_version: None }
    }

    /// Fetches the required version recorded so far.
    pub fn required_version(&self) -> (r: Option<RequiredVersion>)
        ensures
            r == self.required_version,
    {
        match &self.required_version {
            Some(rv) => Some(rv.clone()),
            None => None,
        }
    }

    /// Records the required version and where it was stated.
    pub fn set_required_version(&mut self, version: Version, file: WorkspacePath, start: usize, end: usize)
        ensures
            final(self).required_version matches Some(rv) && rv.version == version && rv.file
                == file && rv.start == start && rv.end == end,
    {
        self.required_version = Some(RequiredVersion { version, file, start, end });
    }
}

impl Clone for BuildData {
    fn clone(&self) -> (r: Self)
        ensures
            r == *self,
    {
        BuildData {
            required_version: match &self.required_version {
                Some(rv) => Some(rv.clone()),
                None => None,
            },
        }
    }
}

impl Default for BuildData {
    /// No requirement recorded, as `new` builds it.
    fn default() -> (r: BuildData)
        ensures
            r.required_version is None,
    {
        BuildData::new()
    }
}

/// One discovered addon: its folder name, which location it was found in,
/// its optional per-addon configuration, its prefix, and the build data
/// attached to it.
#[derive(Debug)]
pub struct Addon {
    /// The folder name of the addon.
    pub name: String,
    /// Which location the addon was found in.
    pub location: Location,
    /// The addon's own configuration, when its folder has one.
    pub config: Option<AddonConfig>,
    /// The addon's prefix.
    pub prefix: Prefix,
    /// Data the build pipeline attaches while building.
    pub build_data: BuildData,
}

/// Whether some other discovered addon has the same lowercased name as
/// addon `i` but a name that differs in case.
pub open spec fn name_clash(s: Seq<Addon>, i: int) -> bool {
    exists|j: int|
        0 <= j < s.len() && lower_of(#[trigger] s[j].name@) == lower_of(s[i].name@) && s[j].name@
            != s[i].name@
}

/// Whether some other discovered addon has the same lowercased name as
/// addon `i` but lives in the other location.
pub open spec fn location_clash(s: Seq<Addon>, i: int) -> bool {
    exists|j: int|
        0 <= j < s.len() && lower_of(#[trigger] s[j].name@) == lower_of(s[i].name@) && s[j].location
            != s[i].location
}

/// Whether addon `i` collides with any other discovered addon.
pub open spec fn clash(s: Seq<Addon>, i: int) -> bool {
    name_clash(s, i) || location_clash(s, i)
}

impl Addon {
    /// Assemble an addon from what discovery read off disk.
    pub fn new(name: String, location: Location, config: Option<AddonConfig>, prefix: Prefix) -> (r:
        Addon)
        ensures
            r.name == name,
            r.location == location,
            r.config == config,
            r.prefix == prefix,
            r.build_data.required_version is None,
    {
        Addon { name, location, config, prefix, build_data: BuildData::new() }
    }

    /// The folder name of the addon.
    pub fn name(&self) -> (r: &str)
        ensures
            r@ == self.name@,
    {
        self.name.as_str()
    }

    /// The file name of the built PBO for this addon, under the given
    /// project prefix.
    pub fn pbo_name(&self, prefix: &str) -> (r: String)
        ensures
            r@ == prefix@ + "_"@ + self.name@,
    {
        let mut s = prefix.to_owned();
        s.append("_");
        s.append(self.name.as_str());
        s
    }

    /// Which location the addon was found in.
    pub fn location(&self) -> (r: &Location)
        ensures
            *r == self.location,
    {
        &self.location
    }

    /// The addon's prefix.
    pub fn prefix(&self) -> (r: &Prefix)
        ensures
            *r == self.prefix,
    {
        &self.prefix
    }

    /// The addon's folder relative to the project root:
    /// `addons/foobar` or `optionals/foobar`.
    pub fn folder(&self) -> (r: String)
        ensures
            r@ == self.location.spec_name() + "/"@ + self.name@,
    {
        let mut s = self.location.to_string();
        s.append("/");
        s.append(self.name.as_str());
        s
    }

    /// The addon's own configuration, when its folder has one.
    pub fn config(&self) -> (r: Option<&AddonConfig>)
        ensures
            match r {
                Some(c) => self.config == Some(*c),
                None => self.config is None,
            },
    {
        match &self.config {
            Some(c) => Some(c),
            None => None,
        }
    }

    /// Data the build pipeline attaches while building.
    pub fn build_data(&self) -> (r: &BuildData)
        ensures
            *r == self.build_data,
    {
        &self.build_data
    }

    /// Validate discovered addons against each other: no two may share a
    /// lowercased name, neither under different cases of the name nor
    /// across the two locations. The first addon, in the given order,
    /// that collides is reported — a casing collision before a location
    /// collision; with no collision the addons come back unchanged.
    pub fn scan(addons: Vec<Addon>) -> (r: Result<Vec<Addon>, Error>)
        ensures
            match r {
                Ok(v) => v == addons && forall|i: int| 0 <= i < addons@.len() ==> !clash(addons@, i),
                Err(e) => exists|i: int|
                    {
                        &&& 0 <= i < addons@.len()
                        &&& #[trigger] clash(addons@, i)
                        &&& forall|k: int| 0 <= k < i ==> !clash(addons@, k)
                        &&& if name_clash(addons@, i) {
                            e matches Error::AddonNameDuplicate(n) && n@ == addons@[i].name@
                        } else {
                            e matches Error::AddonDuplicate(n) && n@ == addons@[i].name@
                        }
                    },
            },
    {
        let mut lowered: Vec<String> = Vec::new();
        let mut i: usize = 0;
        while i < addons.len()
            invariant
                i <= addons@.len(),
                lowered@.len() == i,
                forall|k: int| 0 <= k < i ==> (#[trigger] lowered@[k])@ == lower_of(
                    addons@[k].name@,
                ),
            decreases addons@.len() - i,
        {
            lowered.push(to_lowercase(addons[i].name.as_str()));
            i = i + 1;
        }
        let mut i: usize = 0;
        while i < addons.len()
            invariant
                i <= addons@.len(),
                lowered@.len() == addons@.len(),
                forall|k: int| 0 <= k < addons@.len() ==> (#[trigger] lowered@[k])@ == lower_of(
                    addons@[k].name@,
                ),
                forall|k: int| 0 <= k < i ==> !clash(addons@, k),
            decreases addons@.len() - i,
        {
            let mut j: usize = 0;
            while j < addons.len()
                invariant
                    i < addons@.len(),
                    j <= addons@.len(),
                    lowered@.len() == addons@.len(),
                    forall|k: int| 0 <= k < addons@.len() ==> (#[trigger] lowered@[k])@ == lower_of(
                        addons@[k].name@,
                    ),
                    forall|l: int|
                        0 <= l < j ==> !(lower_of(#[trigger] addons@[l].name@) == lower_of(
                            addons@[i as int].name@,
                        ) && addons@[l].name@ != addons@[i as int].name@),
                    forall|k: int| 0 <= k < i ==> !clash(addons@, k),
                decreases addons@.len() - j,
            {
                if lowered[j] == lowered[i] && !str_eq(
                    addons[j].name.as_str(),
                    addons[i].name.as_str(),
                ) {
                    proof {
                        let s = addons@;
                        assert(lower_of(s[j as int].name@) == lower_of(s[i as int].name@));
                        assert(name_clash(s, i as int));
                        assert(clash(s, i as int));
                    }
                    return Err(Error::AddonNameDuplicate(addons[i].name.clone()));
                }
                j = j + 1;
            }
            let mut j: usize = 0;
            while j < addons.len()
                invariant
                    i < addons@.len(),
                    j <= addons@.len(),
                    lowered@.len() == addons@.len(),
                    !name_clash(addons@, i as int),
                    forall|k: int| 0 <= k < addons@.len() ==> (#[trigger] lowered@[k])@ == lower_of(
                        addons@[k].name@,
                    ),
                    forall|l: int|
                        0 <= l < j ==> !(lower_of(#[trigger] addons@[l].name@) == lower_of(
                            addons@[i as int].name@,
                        ) && addons@[l].location != addons@[i as int].location),
                    forall|k: int| 0 <= k < i ==> !clash(addons@, k),
                decreases addons@.len() - j,
            {
                if lowered[j] == lowered[i] && !(addons[j].location == addons[i].location) {
                    proof {
                        let s = addons@;
                        assert(lower_of(s[j as int].name@) == lower_of(s[i as int].name@));
                        assert(location_clash(s, i as int));
                        assert(clash(s, i as int));
                    }
                    return Err(Error::AddonDuplicate(addons[i].name.clone()));
                }
                j = j + 1;
            }
            i = i + 1;
        }
        Ok(addons)
    }
}

} // verus!
