//! Platform identification: maps the running OS and CPU architecture to the
//! asset names used by the two hosts the manager downloads from.
//!
//! Two independent fixed tables exist: one for the compiler-release host
//! (`{linux, macos, windows}` x `{x86_64, aarch64, arm}`) and one for the
//! runtime-bundle host (`{linux, macos, windows}` x
//! `{x86_64, aarch64, x86, arm}`).  Any pair outside a table fails closed
//! with `UnsupportedPlatform`: nothing is guessed or substituted.

use vstd::prelude::*;
use vstd::string::*;
use crate::errors::ToolError;
use crate::text::str_eq;

verus! {

/// The OS part of a release asset name, if the OS is supported.
pub open spec fn spec_release_os(os: Seq<char>) -> Option<Seq<char>> {
    if os == "linux"@ || os == "macos"@ || os == "windows"@ {
        Some(os)
    } else {
        None
    }
}

/// The architecture part of a release asset name, if supported.
pub open spec fn spec_release_arch(arch: Seq<char>) -> Option<Seq<char>> {
    if arch == "x86_64"@ {
        Some("x86_64"@)
    } else if arch == "aarch64"@ {
        Some("aarch64"@)
    } else if arch == "arm"@ {
        Some("armv7"@)
    } else {
        None
    }
}

/// The release asset filename for a platform: `dargo-{os}-{arch}` with an
/// `.exe` suffix on windows, or `None` outside the table.
pub open spec fn spec_release_asset_name(os: Seq<char>, arch: Seq<char>) -> Option<Seq<char>> {
    match (spec_release_os(os), spec_release_arch(arch)) {
        (Some(o), Some(a)) => if os == "windows"@ {
            Some("dargo-"@ + o + "-"@ + a + ".exe"@)
        } else {
            Some("dargo-"@ + o + "-"@ + a)
        },
        _ => None,
    }
}

/// Maps the running platform to the filename of the compiler binary asset on
/// the release host; fails closed outside the fixed table.
pub fn release_asset_name(os: &str, arch: &str) -> (r: Result<String, ToolError>)
    ensures
        match r {
            Ok(name) => spec_release_asset_name(os@, arch@) == Some(name@),
            Err(e) => spec_release_asset_name(os@, arch@) is None
                && e == ToolError::UnsupportedPlatform,
        },
{
    let os_ok = str_eq(os, "linux") || str_eq(os, "macos") || str_eq(os, "windows");
    if !os_ok {
        return Err(ToolError::UnsupportedPlatform);
    }
    let arch_str: &str = if str_eq(arch, "x86_64") {
        "x86_64"
    } else if str_eq(arch, "aarch64") {
        "aarch64"
    } else if str_eq(arch, "arm") {
        "armv7"
    } else {
        return Err(ToolError::UnsupportedPlatform);
    };
    let base = "dargo-".to_owned().concat(os).concat("-").concat(arch_str);
    if str_eq(os, "windows") {
        Ok(base.concat(".exe"))
    } else {
        Ok(base)
    }
}

/// The release mapping is total over its fixed table and fails closed: an
/// asset name exists for exactly the nine pairs of the table, and the name
/// is a function of the pair — never guessed for anything outside it.
pub proof fn lemma_release_mapping_closed(os: Seq<char>, arch: Seq<char>)
    ensures
        (spec_release_asset_name(os, arch) is Some) <==> ((os == "linux"@ || os == "macos"@ || os
            == "windows"@) && (arch == "x86_64"@ || arch == "aarch64"@ || arch == "arm"@)),
{
}

/// The OS part of a runtime-bundle name, if the OS is supported
/// (`macos` is called `darwin` by the runtime host).
pub open spec fn spec_runtime_os(os: Seq<char>) -> Option<Seq<char>> {
    if os == "macos"@ {
        Some("darwin"@)
    } else if os == "linux"@ {
        Some("linux"@)
    } else if os == "windows"@ {
        Some("windows"@)
    } else {
        None
    }
}

/// The architecture part of a runtime-bundle name, if supported.
pub open spec fn spec_runtime_arch(arch: Seq<char>) -> Option<Seq<char>> {
    if arch == "x86_64"@ {
        Some("amd64"@)
    } else if arch == "aarch64"@ {
        Some("arm64"@)
    } else if arch == "x86"@ {
        Some("386"@)
    } else if arch == "arm"@ {
        Some("armv6l"@)
    } else {
        None
    }
}

/// The archive extension the runtime host uses for an OS: `zip` on windows,
/// a gzip-compressed tar elsewhere.
pub open spec fn spec_runtime_ext(os: Seq<char>) -> Seq<char> {
    if os == "windows"@ {
        "zip"@
    } else {
        "tar.gz"@
    }
}

/// The runtime-bundle archive filename for a runtime version and platform:
/// `go{version}.{os}-{arch}.{ext}`, or `None` outside the table.
pub open spec fn spec_runtime_asset_name(
    version: Seq<char>,
    os: Seq<char>,
    arch: Seq<char>,
) -> Option<Seq<char>> {
    match (spec_runtime_os(os), spec_runtime_arch(arch)) {
        (Some(o), Some(a)) => Some(
            "go"@ + version + "."@ + o + "-"@ + a + "."@ + spec_runtime_ext(os),
        ),
        _ => None,
    }
}

/// The runtime mapping is total over its fixed table and fails closed: an
/// archive name exists for exactly the twelve pairs of the table, whatever
/// the version, and never for anything outside it.
pub proof fn lemma_runtime_mapping_closed(version: Seq<char>, os: Seq<char>, arch: Seq<char>)
    ensures
        (spec_runtime_asset_name(version, os, arch) is Some) <==> ((os == "linux"@ || os
            == "macos"@ || os == "windows"@) && (arch == "x86_64"@ || arch == "aarch64"@ || arch
            == "x86"@ || arch == "arm"@)),
{
}

/// Maps a runtime version and the running platform to the archive filename
/// on the runtime-bundle host; fails closed outside the fixed table.
pub fn runtime_asset_name(version: &str, os: &str, arch: &str) -> (r: Result<String, ToolError>)
    ensures
        match r {
            Ok(name) => spec_runtime_asset_name(version@, os@, arch@) == Some(name@),
            Err(e) => spec_runtime_asset_name(version@, os@, arch@) is None
                && e == ToolError::UnsupportedPlatform,
        },
{
    let os_str: &str = if str_eq(os, "macos") {
        "darwin"
    } else if str_eq(os, "linux") {
        "linux"
    } else if str_eq(os, "windows") {
        "windows"
    } else {
        return Err(ToolError::UnsupportedPlatform);
    };
    let arch_str: &str = if str_eq(arch, "x86_64") {
        "amd64"
    } else if str_eq(arch, "aarch64") {
        "arm64"
    } else if str_eq(arch, "x86") {
        "386"
    } else if str_eq(arch, "arm") {
        "armv6l"
    } else {
        return Err(ToolError::UnsupportedPlatform);
    };
    let ext: &str = if str_eq(os, "windows") {
        "zip"
    } else {
        "tar.gz"
    };
    Ok(
        "go".to_owned().concat(version).concat(".").concat(os_str).concat("-").concat(
            arch_str,
        ).concat(".").concat(ext),
    )
}

} // verus!
