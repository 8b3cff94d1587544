//! The error taxonomy of the toolchain manager.

use vstd::prelude::*;

verus! {

/// Every fatal condition the manager can report.
///
/// `UnsupportedPlatform`: the running OS/architecture pair is outside the
/// fixed naming tables.  `Network` carries the HTTP status of a failed
/// request.  `AssetNotFound`: a release exists but lacks the asset for this
/// platform.  `Resolution`: no release could be discovered at all.
/// `NotInstalled`: an operation needs an installed toolchain that is absent.
#[derive(Clone, Copy, Debug, PartialEq, Eq, Structural)]
pub enum ToolError {
    UnsupportedPlatform,
    Network { status: u16 },
    AssetNotFound,
    Resolution,
    NotInstalled,
}

impl ToolError {
    /// A short, fixed description of the error, one per variant.
    pub fn describe(&self) -> (r: &'static str)
        ensures
            r@ == match *self {
                ToolError::UnsupportedPlatform => "unsupported operating system or architecture"@,
                ToolError::Network { .. } => "request to a release host failed"@,
                ToolError::AssetNotFound => "release has no binary for this platform"@,
                ToolError::Resolution => "no releases found"@,
                ToolError::NotInstalled => "toolchain version is not installed"@,
            },
    {
        match self {
            ToolError::UnsupportedPlatform => "unsupported operating system or architecture",
            ToolError::Network { .. } => "request to a release host failed",
            ToolError::AssetNotFound => "release has no binary for this platform",
            ToolError::Resolution => "no releases found",
            ToolError::NotInstalled => "toolchain version is not installed",
        }
    }
}

/// Whether an HTTP status code counts as success (the 2xx range).
pub open spec fn spec_status_success(status: u16) -> bool {
    200 <= status < 300
}

/// Classifies an HTTP response status: 2xx is success, anything else is a
/// `Network` error carrying the status.
pub fn check_status(status: u16) -> (r: Result<(), ToolError>)
    ensures
        spec_status_success(status) <==> r is Ok,
        !spec_status_success(status) ==> r == Result::<(), ToolError>::Err(
            ToolError::Network { status },
        ),
{
    if 200 <= status && status < 300 {
        Ok(())
    } else {
        Err(ToolError::Network { status })
    }
}

} // verus!
