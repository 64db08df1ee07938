//! The platform resolver: a static table mapping an operating system and
//! architecture to the expected release asset filename.

use vstd::prelude::*;
use vstd::string::StringExecFns;

use crate::text::str_eq;

verus! {

/// The expected asset filename for a target, or `None` when the combination
/// is unsupported. Any Windows architecture other than the two named ones
/// falls back to the bare executable.
pub open spec fn spec_filename_for(os: Seq<char>, arch: Seq<char>) -> Option<Seq<char>> {
    if os == "linux"@ {
        if arch == "x86_64"@ {
            Some("wasmer-linux-amd64.tar.gz"@)
        } else if arch == "aarch64"@ {
            Some("wasmer-linux-aarch64.tar.gz"@)
        } else if arch == "mips64"@ {
            Some("wasmer-linux-mips64.tar.gz"@)
        } else if arch == "riscv64"@ {
            Some("wasmer-linux-riscv64.tar.gz"@)
        } else {
            None
        }
    } else if os == "macos"@ {
        if arch == "x86_64"@ {
            Some("wasmer-darwin-amd64.tar.gz"@)
        } else if arch == "aarch64"@ {
            Some("wasmer-darwin-arm64.tar.gz"@)
        } else {
            None
        }
    } else if os == "windows"@ {
        if arch == "x86_64"@ {
            Some("wasmer-windows-amd64.tar.gz"@)
        } else if arch == "gnu"@ {
            Some("wasmer-windows-gnu64.tar.gz"@)
        } else {
            Some("wasmer-windows.exe"@)
        }
    } else {
        None
    }
}

/// Whether a release artifact exists for the target at all.
pub open spec fn spec_supported_target(os: Seq<char>, arch: Seq<char>) -> bool {
    spec_filename_for(os, arch) is Some
}

/// The expected asset filename for the target, or `None` when the
/// combination is unsupported.
pub fn filename_for(os: &str, arch: &str) -> (r: Option<String>)
    ensures
        r is Some <==> spec_supported_target(os@, arch@),
        r matches Some(f) ==> spec_filename_for(os@, arch@) == Some(f@),
{
    if str_eq(os, "linux") {
        if str_eq(arch, "x86_64") {
            Some(String::from_str("wasmer-linux-amd64.tar.gz"))
        } else if str_eq(arch, "aarch64") {
            Some(String::from_str("wasmer-linux-aarch64.tar.gz"))
        } else if str_eq(arch, "mips64") {
            Some(String::from_str("wasmer-linux-mips64.tar.gz"))
        } else if str_eq(arch, "riscv64") {
            Some(String::from_str("wasmer-linux-riscv64.tar.gz"))
        } else {
            None
        }
    } else if str_eq(os, "macos") {
        if str_eq(arch, "x86_64") {
            Some(String::from_str("wasmer-darwin-amd64.tar.gz"))
        } else if str_eq(arch, "aarch64") {
            Some(String::from_str("wasmer-darwin-arm64.tar.gz"))
        } else {
            None
        }
    } else if str_eq(os, "windows") {
        if str_eq(arch, "x86_64") {
            Some(String::from_str("wasmer-windows-amd64.tar.gz"))
        } else if str_eq(arch, "gnu") {
            Some(String::from_str("wasmer-windows-gnu64.tar.gz"))
        } else {
            Some(String::from_str("wasmer-windows.exe"))
        }
    } else {
        None
    }
}

/// The expected asset filename for a supported target.
///
/// Unsupported combinations are excluded by precondition: there is no
/// artifact to fetch for them, and the caller must refuse them up front
/// (with [`filename_for`]) instead of calling this.
pub fn get_filename_for_system_architecture(target_os: &str, target_arch: &str) -> (r: String)
    requires
        spec_supported_target(target_os@, target_arch@),
    ensures
        spec_filename_for(target_os@, target_arch@) == Some(r@),
{
    match filename_for(target_os, target_arch) {
        Some(f) => f,
        None => {
            // unreachable: the precondition says the target is supported
            proof {
                assert(false);
            }
            String::new()
        },
    }
}

} // verus!
