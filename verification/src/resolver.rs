//! Where a resource path leads on each kind of platform.
//!
//! The resolver names the location that has to be canonicalized and read;
//! the filesystem itself is consulted by the embedding program.

use crate::platform::Platform;
use vstd::prelude::*;
use vstd::string::StrSliceExecFns;
use vstd::string::StringExecFns;

verus! {

/// How a platform gives access to local resources.
#[derive(Clone, Debug, PartialEq, Eq)]
pub enum PlatformProfile {
    /// Paths are taken relative to the working directory of the process.
    DirectFilesystem,
    /// Paths are taken under the resource root of the application bundle.
    BundleSandboxed { resource_root: String },
    /// Local resources cannot be resolved at all.
    CapabilityRestricted,
}

/// Mathematical value of a [`PlatformProfile`].
pub enum ProfileModel {
    DirectFilesystem,
    BundleSandboxed { resource_root: Seq<char> },
    CapabilityRestricted,
}

impl View for PlatformProfile {
    type V = ProfileModel;

    open spec fn view(&self) -> ProfileModel {
        match self {
            PlatformProfile::DirectFilesystem => ProfileModel::DirectFilesystem,
            PlatformProfile::BundleSandboxed { resource_root } => ProfileModel::BundleSandboxed {
                resource_root: resource_root@,
            },
            PlatformProfile::CapabilityRestricted => ProfileModel::CapabilityRestricted,
        }
    }
}

/// `path` placed under `root`: the two joined by exactly one separator,
/// unless `root` is empty or already ends in one.
pub open spec fn join_under(root: Seq<char>, path: Seq<char>) -> Seq<char> {
    if root.len() == 0 {
        path
    } else if root.last() == '/' {
        root + path
    } else {
        root + seq!['/'] + path
    }
}

/// The directory that resources may be served from, in canonical form,
/// with the separator of the platform's paths.
#[derive(Clone, Debug, PartialEq, Eq)]
pub struct AllowedRoot {
    pub path: String,
    pub separator: char,
}

/// Mathematical value of an [`AllowedRoot`].
pub struct RootModel {
    pub path: Seq<char>,
    pub separator: char,
}

impl View for AllowedRoot {
    type V = RootModel;

    open spec fn view(&self) -> RootModel {
        RootModel { path: self.path@, separator: self.separator }
    }
}

/// `canonical` names the root itself or something below it: it starts with
/// the root's path and goes on, if at all, at a separator. Nothing lies
/// under a root without a path.
pub open spec fn is_under(root: RootModel, canonical: Seq<char>) -> bool {
    &&& 0 < root.path.len() <= canonical.len()
    &&& canonical.subrange(0, root.path.len() as int) == root.path
    &&& (canonical.len() == root.path.len() || root.path.last() == root.separator
        || canonical[root.path.len() as int] == root.separator)
}

/// The directory whose canonical form is the allowed root: the working
/// directory, or the resource root of the bundle.
pub open spec fn working_directory() -> Seq<char> {
    seq!['.']
}

/// The profile that `platform` has, given the bundle's resource root.
pub open spec fn profile_of(platform: Platform, resource_root: Seq<char>) -> ProfileModel {
    match platform {
        Platform::Android => ProfileModel::CapabilityRestricted,
        Platform::Ios => ProfileModel::BundleSandboxed { resource_root },
        _ => ProfileModel::DirectFilesystem,
    }
}

impl ProfileModel {
    /// The platform can resolve local resources.
    pub open spec fn supports_resolution(self) -> bool {
        !(self is CapabilityRestricted)
    }

    /// The directory that resources are served from, where resolution is
    /// supported. Its canonical form is the allowed root.
    pub open spec fn root_location(self) -> Option<Seq<char>> {
        match self {
            ProfileModel::DirectFilesystem => Some(working_directory()),
            ProfileModel::BundleSandboxed { resource_root } => Some(resource_root),
            ProfileModel::CapabilityRestricted => None,
        }
    }

    /// The location that `path` resolves to, where resolution is supported.
    pub open spec fn location(self, path: Seq<char>) -> Option<Seq<char>> {
        match self {
            ProfileModel::DirectFilesystem => Some(path),
            ProfileModel::BundleSandboxed { resource_root } => Some(
                join_under(resource_root, path),
            ),
            ProfileModel::CapabilityRestricted => None,
        }
    }
}

/// Places `path` under `root`.
pub fn join(root: &str, path: &str) -> (joined: String)
    ensures
        joined@ == join_under(root@, path@),
{
    let n: usize = root.unicode_len();
    if n == 0 {
        return String::from_str(path);
    }
    let mut joined: String = String::from_str(root);
    if root.get_char(n - 1) != '/' {
        proof {
            reveal_strlit("/");
        }
        assert("/"@ =~= seq!['/']);
        joined.append("/");
    }
    joined.append(path);
    joined
}

/// Tests that a canonical location lies under the allowed root.
pub fn within_root(root: &AllowedRoot, canonical: &str) -> (inside: bool)
    ensures
        inside == is_under(root@, canonical@),
{
    let path: &str = root.path.as_str();
    let n: usize = path.unicode_len();
    let m: usize = canonical.unicode_len();
    if n == 0 || n > m {
        return false;
    }
    let mut i: usize = 0;
    while i < n
        invariant
            path@ == root@.path,
            n == path@.len(),
            m == canonical@.len(),
            0 < n <= m,
            i <= n,
            forall|k: int| 0 <= k < i ==> canonical@[k] == path@[k],
        decreases n - i,
    {
        if canonical.get_char(i) != path.get_char(i) {
            assert(canonical@.subrange(0, n as int)[i as int] != path@[i as int]);
            return false;
        }
        i = i + 1;
    }
    assert(canonical@.subrange(0, n as int) =~= path@);
    m == n || path.get_char(n - 1) == root.separator || canonical.get_char(n) == root.separator
}

impl AllowedRoot {
    /// The root at `canonical`, a canonical path of `platform`.
    pub fn new(platform: Platform, canonical: String) -> (root: AllowedRoot)
        ensures
            root.path == canonical,
            root.separator == platform.path_separator(),
    {
        AllowedRoot { path: canonical, separator: platform.separator() }
    }
}

impl PlatformProfile {
    /// The directory to canonicalize for the allowed root, or `None`
    /// exactly where the platform resolves nothing.
    pub fn root_location(&self) -> (location: Option<String>)
        ensures
            match location {
                Some(found) => self@.root_location() == Some(found@),
                None => self@.root_location() is None,
            },
    {
        match self {
            PlatformProfile::DirectFilesystem => {
                proof {
                    reveal_strlit(".");
                }
                assert("."@ =~= working_directory());
                Some(String::from_str("."))
            },
            PlatformProfile::BundleSandboxed { resource_root } => Some(resource_root.clone()),
            PlatformProfile::CapabilityRestricted => None,
        }
    }

    /// The profile of `platform`. The resource root matters only where
    /// resources live in the application bundle.
    pub fn for_platform(platform: Platform, resource_root: String) -> (profile: PlatformProfile)
        ensures
            profile@ == profile_of(platform, resource_root@),
    {
        match platform {
            Platform::Android => PlatformProfile::CapabilityRestricted,
            Platform::Ios => PlatformProfile::BundleSandboxed { resource_root },
            Platform::Windows | Platform::MacOs | Platform::Unix => {
                PlatformProfile::DirectFilesystem
            },
        }
    }

    /// Whether local resources can be resolved on this platform.
    pub fn supports_resolution(&self) -> (supported: bool)
        ensures
            supported == self@.supports_resolution(),
    {
        match self {
            PlatformProfile::CapabilityRestricted => false,
            PlatformProfile::DirectFilesystem => true,
            PlatformProfile::BundleSandboxed { .. } => true,
        }
    }

    /// Resolves a resource path to the location to canonicalize and read,
    /// or to `None` exactly where the platform resolves nothing.
    pub fn resolve(&self, path: &str) -> (location: Option<String>)
        ensures
            match location {
                Some(found) => self@.location(path@) == Some(found@),
                None => self@.location(path@) is None,
            },
    {
        match self {
            PlatformProfile::DirectFilesystem => Some(String::from_str(path)),
            PlatformProfile::BundleSandboxed { resource_root } => Some(
                join(resource_root.as_str(), path),
            ),
            PlatformProfile::CapabilityRestricted => None,
        }
    }
}

} // verus!
