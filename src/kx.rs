//! Settings of the single-directory variant of the switcher, which keeps its
//! binaries and cache under one directory.
use vstd::prelude::*;

use crate::config::{
    base_url_or_default, binary_name, binary_url_of, content_or_empty, make_plan, plan_of,
    stable_url_of, BinaryPlan,
};
use crate::fingerprint::{fingerprint, fingerprint_of, is_key};
use crate::platform::{arch_token, detect_cpu_arch, detect_os, os_token};
use crate::text::{concat, join_path, joined};

verus! {

/// Settings of the single-directory switcher.
pub struct KxConfig {
    pub kx_path: String,
    pub dl_url: String,
    pub os: String,
    pub cpu_arch: String,
    pub debug: bool,
}

impl KxConfig {
    /// Settings for a user with home directory `home_dir`, downloading from
    /// `base_url` (the default release server when `None`), on a host with
    /// the given OS and CPU identifiers.
    pub fn new(home_dir: &str, base_url: Option<&str>, os_id: &str, arch_id: &str, debug: bool) -> (r:
        Self)
        ensures
            r.kx_path@ == joined(home_dir@, ".kx"@),
            r.dl_url@ == base_url_or_default(
                match base_url {
                    Some(u) => Some(u@),
                    None => None,
                },
            ),
            r.os@ == os_token(os_id@),
            r.cpu_arch@ == arch_token(arch_id@),
            r.debug == debug,
    {
        KxConfig {
            kx_path: join_path(home_dir, ".kx"),
            dl_url: match base_url {
                Some(u) => String::from_str(u),
                None => String::from_str("https://dl.k8s.io"),
            },
            os: detect_os(os_id),
            cpu_arch: detect_cpu_arch(arch_id),
            debug,
        }
    }

    /// The directory of the cache entries.
    pub open spec fn cache_dir_of(&self) -> Seq<char> {
        joined(self.kx_path@, "cache"@)
    }

    /// The install path of the binary for `version`.
    pub open spec fn binary_path_of(&self, version: Seq<char>) -> Seq<char> {
        joined(self.kx_path@, binary_name(version))
    }

    /// The download URL of the binary for `version` on this host.
    pub open spec fn binary_url(&self, version: Seq<char>) -> Seq<char> {
        binary_url_of(self.dl_url@, version, self.os@, self.cpu_arch@)
    }

    /// The URL of the stable-version pointer.
    pub fn stable_version_url(&self) -> (r: String)
        ensures
            r@ == stable_url_of(self.dl_url@),
    {
        concat(self.dl_url.as_str(), "/release/stable.txt")
    }

    /// The directory of the cache entries.
    pub fn cache_dir(&self) -> (r: String)
        ensures
            r@ == self.cache_dir_of(),
    {
        join_path(self.kx_path.as_str(), "cache")
    }

    /// What it takes to have the binary for `version`, given whether a file
    /// is already at its install path.
    pub fn download_kubectl(&self, version: &str, present: bool) -> (r: BinaryPlan)
        ensures
            r@ == plan_of(self.binary_url(version@), self.binary_path_of(version@), present),
    {
        let mut url = concat(self.dl_url.as_str(), "/release/");
        url.append(version);
        url.append("/bin/");
        url.append(self.os.as_str());
        url.append("/");
        url.append(self.cpu_arch.as_str());
        url.append("/kubectl");
        let name = concat("kubectl-", version);
        let path = join_path(self.kx_path.as_str(), name.as_str());
        make_plan(url, path, present)
    }

    /// The cache entry for the connection configuration whose content is
    /// `content`, or for empty content when it could not be read.
    pub fn get_version_cache_file(&self, content: Option<&[u8]>) -> (r: String)
        ensures
            r@ == joined(
                self.cache_dir_of(),
                fingerprint_of(
                    content_or_empty(
                        match content {
                            Some(c) => Some(c@),
                            None => None,
                        },
                    ),
                ),
            ),
            is_key(
                fingerprint_of(
                    content_or_empty(
                        match content {
                            Some(c) => Some(c@),
                            None => None,
                        },
                    ),
                ),
            ),
    {
        let key = fingerprint(content);
        let dir = self.cache_dir();
        join_path(dir.as_str(), key.as_str())
    }
}

} // verus!
