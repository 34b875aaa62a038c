use playwright_rs::driver_urls::{
    is_windows_platform, node_archive_exe_path, node_archive_is_zip, node_archive_license_path,
    node_archive_url, node_executable_name, node_triple, npm_core_url, playwright_platform,
    NODE_VERSION,
};

const ALL: [(&str, &str, &str, &str); 6] = [
    ("macos", "x86_64", "mac", "darwin-x64"),
    ("macos", "aarch64", "mac-arm64", "darwin-arm64"),
    ("linux", "x86_64", "linux", "linux-x64"),
    ("linux", "aarch64", "linux-arm64", "linux-arm64"),
    ("windows", "x86_64", "win32_x64", "win-x64"),
    ("windows", "aarch64", "win32_arm64", "win-arm64"),
];

#[test]
fn every_supported_target_maps_to_platform_and_triple() {
    for (os, arch, platform, triple) in ALL {
        assert_eq!(playwright_platform(os, arch), Some(platform));
        assert_eq!(node_triple(platform), Some(triple));
    }
    assert_eq!(playwright_platform("freebsd", "x86_64"), None);
    assert_eq!(node_triple("solaris"), None);
}

#[test]
fn windows_platforms_are_detected() {
    assert!(is_windows_platform("win32_x64"));
    assert!(is_windows_platform("win32_arm64"));
    assert!(!is_windows_platform("mac-arm64"));
    assert!(!is_windows_platform("linux"));
}

#[test]
fn npm_url_matches_registry_scheme() {
    assert_eq!(
        npm_core_url("1.61.1"),
        "https://registry.npmjs.org/playwright-core/-/playwright-core-1.61.1.tgz"
    );
}

#[test]
fn node_urls_and_exe_paths_per_family() {
    assert_eq!(
        node_archive_url("24.17.0", "darwin-arm64"),
        "https://nodejs.org/dist/v24.17.0/node-v24.17.0-darwin-arm64.tar.gz"
    );
    assert_eq!(
        node_archive_url("24.17.0", "win-x64"),
        "https://nodejs.org/dist/v24.17.0/node-v24.17.0-win-x64.zip"
    );
    assert_eq!(
        node_archive_exe_path("24.17.0", "linux-x64"),
        "node-v24.17.0-linux-x64/bin/node"
    );
    assert_eq!(
        node_archive_exe_path("24.17.0", "win-arm64"),
        "node-v24.17.0-win-arm64/node.exe"
    );
}

#[test]
fn node_pin_is_a_bare_semver() {
    let parts: Vec<&str> = NODE_VERSION.split('.').collect();
    assert_eq!(parts.len(), 3, "NODE_VERSION must be MAJOR.MINOR.PATCH");
    assert!(parts.iter().all(|p| p.parse::<u32>().is_ok()));
}

#[test]
fn mixed_case_or_unknown_pairs_are_unsupported() {
    assert_eq!(playwright_platform("MacOS", "x86_64"), None);
    assert_eq!(playwright_platform("linux", "riscv64"), None);
    assert_eq!(node_triple(""), None);
    assert!(!is_windows_platform("win"));
    assert!(!is_windows_platform(""));
}

#[test]
fn non_windows_triples_use_tarballs() {
    assert_eq!(
        node_archive_url("1.2.3", "linux-arm64"),
        "https://nodejs.org/dist/v1.2.3/node-v1.2.3-linux-arm64.tar.gz"
    );
    assert_eq!(
        node_archive_exe_path("1.2.3", "darwin-x64"),
        "node-v1.2.3-darwin-x64/bin/node"
    );
}

#[test]
fn node_license_sits_next_to_the_archive_root() {
    assert_eq!(
        node_archive_license_path("24.17.0", "linux-x64"),
        "node-v24.17.0-linux-x64/LICENSE"
    );
    assert_eq!(
        node_archive_license_path("24.17.0", "win-arm64"),
        "node-v24.17.0-win-arm64/LICENSE"
    );
}

#[test]
fn only_windows_node_archives_are_zips() {
    assert!(node_archive_is_zip("win-x64"));
    assert!(node_archive_is_zip("win-arm64"));
    assert!(!node_archive_is_zip("darwin-arm64"));
    assert!(!node_archive_is_zip("linux-x64"));
}

#[test]
fn driver_node_executable_name_follows_the_platform() {
    assert_eq!(node_executable_name("win32_x64"), "node.exe");
    assert_eq!(node_executable_name("win32_arm64"), "node.exe");
    assert_eq!(node_executable_name("mac-arm64"), "node");
    assert_eq!(node_executable_name("linux"), "node");
}
