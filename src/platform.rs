//! Mapping of the host's operating system and CPU identifiers to the names
//! that release artifacts are published under.
use vstd::prelude::*;

use crate::text::same_text;

verus! {

/// The release name of the operating system that Rust calls `os_id`.
pub open spec fn os_token(os_id: Seq<char>) -> Seq<char> {
    if os_id == "macos"@ {
        "darwin"@
    } else if os_id == "windows"@ {
        "windows"@
    } else {
        "linux"@
    }
}

/// The release name of the CPU architecture that Rust calls `arch_id`;
/// an architecture without a known name keeps its own.
pub open spec fn arch_token(arch_id: Seq<char>) -> Seq<char> {
    if arch_id == "x86"@ {
        "386"@
    } else if arch_id == "x86_64"@ {
        "amd64"@
    } else if arch_id == "arm"@ {
        "arm"@
    } else if arch_id == "aarch64"@ {
        "arm64"@
    } else {
        arch_id
    }
}

/// The release name for the operating system identifier `os_id`
/// (as in `std::env::consts::OS`).
pub fn detect_os(os_id: &str) -> (r: String)
    ensures
        r@ == os_token(os_id@),
{
    if same_text(os_id, "macos") {
        String::from_str("darwin")
    } else if same_text(os_id, "windows") {
        String::from_str("windows")
    } else {
        String::from_str("linux")
    }
}

/// The release name for the CPU architecture identifier `arch_id`
/// (as in `std::env::consts::ARCH`).
pub fn detect_cpu_arch(arch_id: &str) -> (r: String)
    ensures
        r@ == arch_token(arch_id@),
{
    if same_text(arch_id, "x86") {
        String::from_str("386")
    } else if same_text(arch_id, "x86_64") {
        String::from_str("amd64")
    } else if same_text(arch_id, "arm") {
        String::from_str("arm")
    } else if same_text(arch_id, "aarch64") {
        String::from_str("arm64")
    } else {
        String::from_str(arch_id)
    }
}

} // verus!
