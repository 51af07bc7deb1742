use korrect::config::{BinaryPlan, Korrect, KorrectShimConfig};
use korrect::fingerprint::{fingerprint, fingerprint_of_digest, hex_encode};
use korrect::kx::KxConfig;
use korrect::platform::{detect_cpu_arch, detect_os};

fn shim_config(base: Option<&str>) -> KorrectShimConfig {
    KorrectShimConfig::new(
        "/home/u",
        "/home/u/.config",
        "/home/u/.cache",
        base,
        "linux",
        "x86_64",
        false,
    )
}

#[test]
fn test_detect_os() {
    assert_eq!(detect_os("macos"), "darwin");
    assert_eq!(detect_os("windows"), "windows");
    assert_eq!(detect_os("linux"), "linux");
    assert_eq!(detect_os("freebsd"), "linux");
}

#[test]
fn test_detect_cpu_arch() {
    assert_eq!(detect_cpu_arch("x86"), "386");
    assert_eq!(detect_cpu_arch("x86_64"), "amd64");
    assert_eq!(detect_cpu_arch("arm"), "arm");
    assert_eq!(detect_cpu_arch("aarch64"), "arm64");
    assert_eq!(detect_cpu_arch("riscv64"), "riscv64");
}

#[test]
fn test_get_version_cache_file() {
    let config = shim_config(None);
    let cache_file = config.get_version_cache_file(Some(b"test-content".as_slice()));
    assert!(cache_file.starts_with(&config.korrect_cache_path));
    assert_eq!(cache_file.len(), config.korrect_cache_path.len() + 1 + 5);
}

#[test]
fn test_download_kubectl() {
    let config = shim_config(Some("http://127.0.0.1:1234"));
    let version = "v1.23.0";
    match config.download_kubectl(version, false) {
        BinaryPlan::Fetch { url, path, staging } => {
            assert_eq!(url, "http://127.0.0.1:1234/release/v1.23.0/bin/linux/amd64/kubectl");
            assert_eq!(path, format!("/home/u/.korrect/bin/kubectl-{}", version));
            assert_eq!(staging, "/home/u/.korrect/bin/kubectl-v1.23.0.part");
        }
        BinaryPlan::Present { .. } => panic!("a missing binary must be fetched"),
    }
}

#[test]
fn ensure_twice_downloads_once() {
    let config = shim_config(None);
    let first = config.download_kubectl("v1.30.5", false);
    let second = config.download_kubectl("v1.30.5", true);
    let fetched = match first {
        BinaryPlan::Fetch { path, .. } => path,
        BinaryPlan::Present { .. } => panic!("first call must fetch"),
    };
    match second {
        BinaryPlan::Present { path } => assert_eq!(path, fetched),
        BinaryPlan::Fetch { .. } => panic!("second call must not fetch"),
    }
}

#[test]
fn test_korrect_new_with_custom_base_url() {
    let korrect = Korrect::new("/h", "/h/.config", "/h/.cache", Some("https://test.example.com"));
    assert_eq!(korrect.dl_url, "https://test.example.com");
}

#[test]
fn test_korrect_new_default_base_url() {
    let korrect = Korrect::new("/h", "/h/.config", "/h/.cache", None);
    assert_eq!(korrect.dl_url, "https://dl.k8s.io");
}

#[test]
fn korrect_layout() {
    let korrect = Korrect::new("/tmp/home", "/tmp/home/.config", "/tmp/home/.cache", None);
    assert_eq!(korrect.korrect_bin_path, "/tmp/home/.korrect/bin");
    assert_eq!(korrect.korrect_config_path, "/tmp/home/.config/korrect");
    assert_eq!(korrect.korrect_cache_path, "/tmp/home/.cache/korrect");
    assert_eq!(
        korrect.directories(),
        vec![
            "/tmp/home/.korrect".to_string(),
            "/tmp/home/.korrect/bin".to_string(),
            "/tmp/home/.cache/korrect".to_string(),
            "/tmp/home/.config/korrect".to_string(),
        ]
    );
}

#[test]
fn shim_layout_and_urls() {
    let config = shim_config(None);
    assert_eq!(config.korrect_bin_path, "/home/u/.korrect/bin");
    assert_eq!(config.korrect_cache_path, "/home/u/.cache/korrect");
    assert_eq!(config.korrect_config_path, "/home/u/.config/korrect");
    assert_eq!(config.default_kubeconfig, "/home/u/.kube/config");
    assert_eq!(config.stable_version_url(), "https://dl.k8s.io/release/stable.txt");
    assert_eq!(config.binary_path("v1.31.3"), "/home/u/.korrect/bin/kubectl-v1.31.3");
    assert_eq!(config.kubeconfig_path(Some("/etc/kc")), "/etc/kc");
    assert_eq!(config.kubeconfig_path(None), "/home/u/.kube/config");
    match config.download_kubectl("v1.31.3", true) {
        BinaryPlan::Present { path } => assert_eq!(path, "/home/u/.korrect/bin/kubectl-v1.31.3"),
        BinaryPlan::Fetch { .. } => panic!("a present binary is not fetched"),
    }
}

#[test]
fn fingerprint_known_values() {
    // SHA-256 of the empty input starts e3b0c442, of "abc" ba7816bf.
    assert_eq!(fingerprint(None), "e3b0c");
    assert_eq!(fingerprint(Some(b"".as_slice())), "e3b0c");
    assert_eq!(fingerprint(Some(b"abc".as_slice())), "ba781");
}

#[test]
fn fingerprint_is_deterministic_and_separates() {
    let a = fingerprint(Some(b"apiVersion: v1\nclusters: []\n".as_slice()));
    let b = fingerprint(Some(b"apiVersion: v1\nclusters: []\n".as_slice()));
    let c = fingerprint(Some(b"apiVersion: v1\nclusters: [x]\n".as_slice()));
    assert_eq!(a, b);
    assert_ne!(a, c);
    assert_eq!(a.len(), 5);
}

#[test]
fn missing_config_hashes_as_empty() {
    let config = shim_config(None);
    assert_eq!(
        config.get_version_cache_file(None),
        "/home/u/.cache/korrect/e3b0c"
    );
}

#[test]
fn hex_of_digest() {
    assert_eq!(hex_encode(&[0x00, 0x0f, 0xa5, 0xff]), "000fa5ff");
    assert_eq!(hex_encode(&[]), "");
    assert_eq!(fingerprint_of_digest(&[0xba, 0x78, 0x16, 0xbf]), "ba781");
}

#[test]
fn kx_layout() {
    let kx = KxConfig::new("/home/u", None, "macos", "aarch64", true);
    assert_eq!(kx.kx_path, "/home/u/.kx");
    assert_eq!(kx.dl_url, "https://dl.k8s.io");
    assert_eq!(kx.cache_dir(), "/home/u/.kx/cache");
    assert_eq!(kx.stable_version_url(), "https://dl.k8s.io/release/stable.txt");
    match kx.download_kubectl("v1.29.0", false) {
        BinaryPlan::Fetch { url, path, .. } => {
            assert_eq!(url, "https://dl.k8s.io/release/v1.29.0/bin/darwin/arm64/kubectl");
            assert_eq!(path, "/home/u/.kx/kubectl-v1.29.0");
        }
        BinaryPlan::Present { .. } => panic!("a missing binary must be fetched"),
    }
    assert_eq!(kx.get_version_cache_file(Some(b"abc".as_slice())), "/home/u/.kx/cache/ba781");
    assert_eq!(kx.get_version_cache_file(None), "/home/u/.kx/cache/e3b0c");
}

#[test]
fn kx_custom_base_url() {
    let kx = KxConfig::new("/home/u", Some("http://127.0.0.1:8080"), "linux", "x86_64", false);
    assert_eq!(kx.stable_version_url(), "http://127.0.0.1:8080/release/stable.txt");
    match kx.download_kubectl("v1.29.0", false) {
        BinaryPlan::Fetch { url, .. } => {
            assert_eq!(url, "http://127.0.0.1:8080/release/v1.29.0/bin/linux/amd64/kubectl")
        }
        BinaryPlan::Present { .. } => panic!("a missing binary must be fetched"),
    }
}

#[test]
fn cache_key_is_five_hex_digits() {
    let config = shim_config(None);
    for content in [b"".as_slice(), b"test-content".as_slice(), b"\x00\xff".as_slice()] {
        let key = fingerprint(Some(content));
        assert_eq!(key.len(), 5);
        assert!(key.chars().all(|c| c.is_ascii_digit() || ('a'..='f').contains(&c)));
        let file = config.get_version_cache_file(Some(content));
        assert_eq!(file, format!("/home/u/.cache/korrect/{}", key));
    }
}
