use vstd::prelude::*;

verus! {

/// A Vulkan version as reported by the loader.
#[derive(Clone, Copy, Debug, PartialEq, Eq, Structural)]
pub struct ApiVersion {
    pub major: u32,
    pub minor: u32,
    pub patch: u32,
}

/// `v` is at least `w`, comparing major, then minor, then patch.
pub open spec fn at_least(v: ApiVersion, w: ApiVersion) -> bool {
    v.major > w.major || (v.major == w.major && (v.minor > w.minor || (v.minor == w.minor
        && v.patch >= w.patch)))
}

/// First loader version from which macOS drivers are only listed when
/// portability enumeration is asked for.
pub open spec fn portability_version() -> ApiVersion {
    ApiVersion { major: 1, minor: 3, patch: 216 }
}

/// Whether the portability extensions and flag must be enabled.
pub open spec fn portability_required(is_macos: bool, loader: ApiVersion) -> bool {
    is_macos && at_least(loader, portability_version())
}

impl ApiVersion {
    /// Whether `self` is at least `other`.
    pub fn is_at_least(&self, other: &ApiVersion) -> (r: bool)
        ensures
            r == at_least(*self, *other),
    {
        if self.major != other.major {
            self.major > other.major
        } else if self.minor != other.minor {
            self.minor > other.minor
        } else {
            self.patch >= other.patch
        }
    }
}

/// Whether a loader of version `loader` on this platform needs the
/// portability extensions.
pub fn needs_portability(is_macos: bool, loader: &ApiVersion) -> (r: bool)
    ensures
        r == portability_required(is_macos, *loader),
{
    let minimum = ApiVersion { major: 1, minor: 3, patch: 216 };
    is_macos && loader.is_at_least(&minimum)
}

} // verus!
