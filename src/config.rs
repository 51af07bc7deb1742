//! Where things live: install and cache directories, release URLs, and the
//! plan for making a client binary present.
use vstd::prelude::*;

use crate::fingerprint::{fingerprint, fingerprint_of, is_key};
use crate::platform::{arch_token, detect_cpu_arch, detect_os, os_token};
use crate::text::{concat, join_path, joined};

verus! {

/// The release server used when no other is configured.
pub open spec fn default_base_url() -> Seq<char> {
    "https://dl.k8s.io"@
}

/// The file name of the client binary for `version`.
pub open spec fn binary_name(version: Seq<char>) -> Seq<char> {
    "kubectl-"@ + version
}

/// The URL of the stable-version pointer under `base`.
pub open spec fn stable_url_of(base: Seq<char>) -> Seq<char> {
    base + "/release/stable.txt"@
}

/// The URL of the client binary for `version`, `os` and `arch` under `base`.
pub open spec fn binary_url_of(
    base: Seq<char>,
    version: Seq<char>,
    os: Seq<char>,
    arch: Seq<char>,
) -> Seq<char> {
    base + "/release/"@ + version + "/bin/"@ + os + "/"@ + arch + "/kubectl"@
}

/// Where a download is written before it is moved to `path`.
pub open spec fn staging_of(path: Seq<char>) -> Seq<char> {
    path + ".part"@
}

/// The content that a configuration read stands for: nothing when it could
/// not be read.
pub open spec fn content_or_empty(content: Option<Seq<u8>>) -> Seq<u8> {
    match content {
        Some(c) => c,
        None => Seq::empty(),
    }
}

/// The base URL: the override when one is given, else the default.
pub open spec fn base_url_or_default(base_url: Option<Seq<char>>) -> Seq<char> {
    match base_url {
        Some(u) => u,
        None => default_base_url(),
    }
}

/// What it takes to have a client binary at its install path.
pub enum BinaryPlan {
    /// The binary is already installed at `path`.
    Present { path: String },
    /// Download `url` into `staging`, make it executable, then move it to `path`.
    Fetch { url: String, path: String, staging: String },
}

/// The mathematical view of a [`BinaryPlan`].
pub enum BinaryPlanView {
    Present { path: Seq<char> },
    Fetch { url: Seq<char>, path: Seq<char>, staging: Seq<char> },
}

impl View for BinaryPlan {
    type V = BinaryPlanView;

    open spec fn view(&self) -> BinaryPlanView {
        match self {
            BinaryPlan::Present { path } => BinaryPlanView::Present { path: path@ },
            BinaryPlan::Fetch { url, path, staging } => BinaryPlanView::Fetch {
                url: url@,
                path: path@,
                staging: staging@,
            },
        }
    }
}

impl BinaryPlanView {
    /// The install path that the plan ends with.
    pub open spec fn path(self) -> Seq<char> {
        match self {
            BinaryPlanView::Present { path } => path,
            BinaryPlanView::Fetch { path, .. } => path,
        }
    }
}

/// The plan for `path`: nothing to do when the binary is present, else a
/// download of `url` staged beside `path`.
pub open spec fn plan_of(url: Seq<char>, path: Seq<char>, present: bool) -> BinaryPlanView {
    if present {
        BinaryPlanView::Present { path }
    } else {
        BinaryPlanView::Fetch { url, path, staging: staging_of(path) }
    }
}

pub(crate) fn make_plan(url: String, path: String, present: bool) -> (r: BinaryPlan)
    ensures
        r@ == plan_of(url@, path@, present),
{
    if present {
        BinaryPlan::Present { path }
    } else {
        let staging = concat(path.as_str(), ".part");
        BinaryPlan::Fetch { url, path, staging }
    }
}

/// Settings of the shim, fixed at start-up.
pub struct KorrectShimConfig {
    pub korrect_config_path: String,
    pub korrect_cache_path: String,
    pub korrect_bin_path: String,
    /// The connection configuration used when none is named.
    pub default_kubeconfig: String,
    pub dl_url: String,
    pub os: String,
    pub cpu_arch: String,
    pub debug: bool,
}

impl KorrectShimConfig {
    /// Settings for a user whose home, configuration and cache directories
    /// are given, on a host with the given OS and CPU identifiers.
    pub fn new(
        home_dir: &str,
        config_dir: &str,
        cache_dir: &str,
        base_url: Option<&str>,
        os_id: &str,
        arch_id: &str,
        debug: bool,
    ) -> (r: Self)
        ensures
            r.korrect_config_path@ == joined(config_dir@, "korrect"@),
            r.korrect_cache_path@ == joined(cache_dir@, "korrect"@),
            r.korrect_bin_path@ == joined(joined(home_dir@, ".korrect"@), "bin"@),
            r.default_kubeconfig@ == joined(joined(home_dir@, ".kube"@), "config"@),
            r.dl_url@ == base_url_or_default(
                match base_url {
                    Some(u) => Some(u@),
                    None => None,
                },
            ),
            r.os@ == os_token(os_id@),
            r.cpu_arch@ == arch_token(arch_id@),
            r.debug == debug,
    {
        let base = join_path(home_dir, ".korrect");
        let kube = join_path(home_dir, ".kube");
        KorrectShimConfig {
            korrect_config_path: join_path(config_dir, "korrect"),
            korrect_cache_path: join_path(cache_dir, "korrect"),
            korrect_bin_path: join_path(base.as_str(), "bin"),
            default_kubeconfig: join_path(kube.as_str(), "config"),
            dl_url: match base_url {
                Some(u) => String::from_str(u),
                None => String::from_str("https://dl.k8s.io"),
            },
            os: detect_os(os_id),
            cpu_arch: detect_cpu_arch(arch_id),
            debug,
        }
    }

    /// The install path of the binary for `version`.
    pub open spec fn binary_path_of(&self, version: Seq<char>) -> Seq<char> {
        joined(self.korrect_bin_path@, binary_name(version))
    }

    /// The download URL of the binary for `version` on this host.
    pub open spec fn binary_url(&self, version: Seq<char>) -> Seq<char> {
        binary_url_of(self.dl_url@, version, self.os@, self.cpu_arch@)
    }

    /// The cache entry for a configuration with the given content.
    pub open spec fn cache_file_of(&self, content: Seq<u8>) -> Seq<char> {
        joined(self.korrect_cache_path@, fingerprint_of(content))
    }

    /// The URL of the stable-version pointer.
    pub fn stable_version_url(&self) -> (r: String)
        ensures
            r@ == stable_url_of(self.dl_url@),
    {
        concat(self.dl_url.as_str(), "/release/stable.txt")
    }

    /// The install path of the binary for `version`.
    pub fn binary_path(&self, version: &str) -> (r: String)
        ensures
            r@ == self.binary_path_of(version@),
    {
        let name = concat("kubectl-", version);
        join_path(self.korrect_bin_path.as_str(), name.as_str())
    }

    /// The download URL of the binary for `version` on this host.
    pub fn download_url(&self, version: &str) -> (r: String)
        ensures
            r@ == self.binary_url(version@),
    {
        let mut url = concat(self.dl_url.as_str(), "/release/");
        url.append(version);
        url.append("/bin/");
        url.append(self.os.as_str());
        url.append("/");
        url.append(self.cpu_arch.as_str());
        url.append("/kubectl");
        url
    }

    /// What it takes to have the binary for `version`, given whether a file
    /// is already at its install path (an installed file is trusted as is).
    pub fn download_kubectl(&self, version: &str, present: bool) -> (r: BinaryPlan)
        ensures
            r@ == plan_of(self.binary_url(version@), self.binary_path_of(version@), present),
    {
        make_plan(self.download_url(version), self.binary_path(version), present)
    }

    /// The cache entry for the connection configuration whose content is
    /// `content`, or for empty content when it could not be read.
    pub fn get_version_cache_file(&self, content: Option<&[u8]>) -> (r: String)
        ensures
            r@ == self.cache_file_of(
                content_or_empty(
                    match content {
                        Some(c) => Some(c@),
                        None => None,
                    },
                ),
            ),
            is_key(
                fingerprint_of(
                    content_or_empty(
                        match content {
                            Some(c) => Some(c@),
                            None => None,
                        },
                    ),
                ),
            ),
    {
        let key = fingerprint(content);
        join_path(self.korrect_cache_path.as_str(), key.as_str())
    }

    /// The connection configuration to use: the override when one is given,
    /// else the default one.
    pub fn kubeconfig_path(&self, kubeconfig: Option<&str>) -> (r: String)
        ensures
            r@ == match kubeconfig {
                Some(k) => k@,
                None => self.default_kubeconfig@,
            },
    {
        match kubeconfig {
            Some(k) => String::from_str(k),
            None => self.default_kubeconfig.clone(),
        }
    }
}

/// Calling for the same binary twice downloads at most once: once a download
/// has put the binary in place, the second call has nothing to do and names
/// the same path.
pub proof fn lemma_ensure_twice(cfg: KorrectShimConfig, version: Seq<char>)
    ensures
        plan_of(cfg.binary_url(version), cfg.binary_path_of(version), true)
            == (BinaryPlanView::Present { path: cfg.binary_path_of(version) }),
        plan_of(cfg.binary_url(version), cfg.binary_path_of(version), false).path()
            == cfg.binary_path_of(version),
        plan_of(cfg.binary_url(version), cfg.binary_path_of(version), false) is Fetch,
{
}

/// The directories of an installation.
pub struct Korrect {
    pub korrect_config_path: String,
    pub korrect_cache_path: String,
    pub korrect_base_path: String,
    pub korrect_bin_path: String,
    pub dl_url: String,
}

impl Korrect {
    /// The layout for a user whose home, configuration and cache directories
    /// are given.
    pub fn new(home_dir: &str, config_dir: &str, cache_dir: &str, base_url: Option<&str>) -> (r:
        Self)
        ensures
            r.korrect_config_path@ == joined(config_dir@, "korrect"@),
            r.korrect_cache_path@ == joined(cache_dir@, "korrect"@),
            r.korrect_base_path@ == joined(home_dir@, ".korrect"@),
            r.korrect_bin_path@ == joined(joined(home_dir@, ".korrect"@), "bin"@),
            r.dl_url@ == base_url_or_default(
                match base_url {
                    Some(u) => Some(u@),
                    None => None,
                },
            ),
    {
        let base = join_path(home_dir, ".korrect");
        Korrect {
            korrect_config_path: join_path(config_dir, "korrect"),
            korrect_cache_path: join_path(cache_dir, "korrect"),
            korrect_bin_path: join_path(base.as_str(), "bin"),
            korrect_base_path: base,
            dl_url: match base_url {
                Some(u) => String::from_str(u),
                None => String::from_str("https://dl.k8s.io"),
            },
        }
    }

    /// The directories that set-up creates and uninstalling removes, in order.
    pub fn directories(&self) -> (r: Vec<String>)
        ensures
            r@.len() == 4,
            r@[0] == self.korrect_base_path,
            r@[1] == self.korrect_bin_path,
            r@[2] == self.korrect_cache_path,
            r@[3] == self.korrect_config_path,
    {
        vec![
            self.korrect_base_path.clone(),
            self.korrect_bin_path.clone(),
            self.korrect_cache_path.clone(),
            self.korrect_config_path.clone(),
        ]
    }
}

} // verus!
