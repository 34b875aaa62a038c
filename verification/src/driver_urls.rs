//! Platform mapping and download coordinates for assembling the driver from
//! the `playwright-core` npm tarball and a pinned Node.js binary.

use vstd::prelude::*;
use crate::text::{is_prefix, owned, push_str, starts_with, str_eq};

verus! {

/// Node.js runtime bundled with the driver, as a bare `MAJOR.MINOR.PATCH`.
pub const NODE_VERSION: &'static str = "24.17.0";

/// The Playwright platform identifier for an (os, arch) pair.
pub open spec fn platform_spec(os: Seq<char>, arch: Seq<char>) -> Option<Seq<char>> {
    if os == "macos"@ && arch == "x86_64"@ {
        Some("mac"@)
    } else if os == "macos"@ && arch == "aarch64"@ {
        Some("mac-arm64"@)
    } else if os == "linux"@ && arch == "x86_64"@ {
        Some("linux"@)
    } else if os == "linux"@ && arch == "aarch64"@ {
        Some("linux-arm64"@)
    } else if os == "windows"@ && arch == "x86_64"@ {
        Some("win32_x64"@)
    } else if os == "windows"@ && arch == "aarch64"@ {
        Some("win32_arm64"@)
    } else {
        None
    }
}

/// The Node dist triple for a Playwright platform identifier.
pub open spec fn triple_spec(platform: Seq<char>) -> Option<Seq<char>> {
    if platform == "mac"@ {
        Some("darwin-x64"@)
    } else if platform == "mac-arm64"@ {
        Some("darwin-arm64"@)
    } else if platform == "linux"@ {
        Some("linux-x64"@)
    } else if platform == "linux-arm64"@ {
        Some("linux-arm64"@)
    } else if platform == "win32_x64"@ {
        Some("win-x64"@)
    } else if platform == "win32_arm64"@ {
        Some("win-arm64"@)
    } else {
        None
    }
}

/// The view of an optional static string.
pub open spec fn opt_view(o: Option<&'static str>) -> Option<Seq<char>> {
    match o {
        Some(s) => Some(s@),
        None => None,
    }
}

/// Playwright platform identifier for an (os, arch) pair, e.g.
/// `("macos", "aarch64")` gives `mac-arm64`; `None` for unsupported pairs.
pub fn playwright_platform(os: &str, arch: &str) -> (r: Option<&'static str>)
    ensures
        opt_view(r) == platform_spec(os@, arch@),
{
    if str_eq(os, "macos") && str_eq(arch, "x86_64") {
        Some("mac")
    } else if str_eq(os, "macos") && str_eq(arch, "aarch64") {
        Some("mac-arm64")
    } else if str_eq(os, "linux") && str_eq(arch, "x86_64") {
        Some("linux")
    } else if str_eq(os, "linux") && str_eq(arch, "aarch64") {
        Some("linux-arm64")
    } else if str_eq(os, "windows") && str_eq(arch, "x86_64") {
        Some("win32_x64")
    } else if str_eq(os, "windows") && str_eq(arch, "aarch64") {
        Some("win32_arm64")
    } else {
        None
    }
}

/// Node dist triple for a Playwright platform identifier, e.g. `mac-arm64`
/// gives `darwin-arm64`; `None` for unknown identifiers.
pub fn node_triple(playwright_platform: &str) -> (r: Option<&'static str>)
    ensures
        opt_view(r) == triple_spec(playwright_platform@),
{
    if str_eq(playwright_platform, "mac") {
        Some("darwin-x64")
    } else if str_eq(playwright_platform, "mac-arm64") {
        Some("darwin-arm64")
    } else if str_eq(playwright_platform, "linux") {
        Some("linux-x64")
    } else if str_eq(playwright_platform, "linux-arm64") {
        Some("linux-arm64")
    } else if str_eq(playwright_platform, "win32_x64") {
        Some("win-x64")
    } else if str_eq(playwright_platform, "win32_arm64") {
        Some("win-arm64")
    } else {
        None
    }
}

/// Whether a Playwright platform identifier is a Windows target.
pub fn is_windows_platform(playwright_platform: &str) -> (r: bool)
    ensures
        r == is_prefix("win32"@, playwright_platform@),
{
    starts_with(playwright_platform, "win32")
}

/// npm registry URL of the `playwright-core` tarball.
pub open spec fn npm_core_url_spec(version: Seq<char>) -> Seq<char> {
    "https://registry.npmjs.org/playwright-core/-/playwright-core-"@ + version + ".tgz"@
}

/// npm registry URL of the `playwright-core` tarball for a driver version.
pub fn npm_core_url(driver_version: &str) -> (r: String)
    ensures
        r@ == npm_core_url_spec(driver_version@),
{
    let mut s = owned("https://registry.npmjs.org/playwright-core/-/playwright-core-");
    push_str(&mut s, driver_version);
    push_str(&mut s, ".tgz");
    s
}

/// Archive extension of the Node distribution for a triple.
pub open spec fn archive_ext(triple: Seq<char>) -> Seq<char> {
    if is_prefix("win-"@, triple) {
        "zip"@
    } else {
        "tar.gz"@
    }
}

/// nodejs.org URL of the Node archive.
pub open spec fn node_archive_url_spec(version: Seq<char>, triple: Seq<char>) -> Seq<char> {
    "https://nodejs.org/dist/v"@ + version + "/node-v"@ + version + "-"@ + triple + "."@
        + archive_ext(triple)
}

/// nodejs.org URL of the Node binary archive for a Node dist triple.
pub fn node_archive_url(node_version: &str, triple: &str) -> (r: String)
    ensures
        r@ == node_archive_url_spec(node_version@, triple@),
{
    let ext = if starts_with(triple, "win-") {
        "zip"
    } else {
        "tar.gz"
    };
    let mut s = owned("https://nodejs.org/dist/v");
    push_str(&mut s, node_version);
    push_str(&mut s, "/node-v");
    push_str(&mut s, node_version);
    push_str(&mut s, "-");
    push_str(&mut s, triple);
    push_str(&mut s, ".");
    push_str(&mut s, ext);
    s
}

/// Path of the `node` executable inside the Node archive.
pub open spec fn node_exe_path_spec(version: Seq<char>, triple: Seq<char>) -> Seq<char> {
    if is_prefix("win-"@, triple) {
        "node-v"@ + version + "-"@ + triple + "/node.exe"@
    } else {
        "node-v"@ + version + "-"@ + triple + "/bin/node"@
    }
}

/// Path of the `node` executable inside the Node dist archive.
pub fn node_archive_exe_path(node_version: &str, triple: &str) -> (r: String)
    ensures
        r@ == node_exe_path_spec(node_version@, triple@),
{
    let windows = starts_with(triple, "win-");
    let mut s = owned("node-v");
    push_str(&mut s, node_version);
    push_str(&mut s, "-");
    push_str(&mut s, triple);
    if windows {
        push_str(&mut s, "/node.exe");
    } else {
        push_str(&mut s, "/bin/node");
    }
    s
}

/// Path of Node's licence file inside the Node archive.
pub open spec fn node_license_path_spec(version: Seq<char>, triple: Seq<char>) -> Seq<char> {
    "node-v"@ + version + "-"@ + triple + "/LICENSE"@
}

/// Path of Node's `LICENSE` file inside the Node dist archive, copied next
/// to the executable.
pub fn node_archive_license_path(node_version: &str, triple: &str) -> (r: String)
    ensures
        r@ == node_license_path_spec(node_version@, triple@),
{
    let mut s = owned("node-v");
    push_str(&mut s, node_version);
    push_str(&mut s, "-");
    push_str(&mut s, triple);
    push_str(&mut s, "/LICENSE");
    s
}

/// Whether the Node archive for a triple is a zip (Windows) rather than a
/// gzipped tarball.
pub fn node_archive_is_zip(triple: &str) -> (r: bool)
    ensures
        r == is_prefix("win-"@, triple@),
        r == (archive_ext(triple@) == "zip"@),
{
    proof {
        reveal_strlit("zip");
        reveal_strlit("tar.gz");
        assert("zip"@.len() != "tar.gz"@.len());
    }
    starts_with(triple, "win-")
}

/// File name of the Node executable in an assembled driver directory for a
/// Playwright platform identifier: `node.exe` on Windows, else `node`.
pub fn node_executable_name(playwright_platform: &str) -> (r: &'static str)
    ensures
        r@ == (if is_prefix("win32"@, playwright_platform@) {
            "node.exe"@
        } else {
            "node"@
        }),
{
    if is_windows_platform(playwright_platform) {
        "node.exe"
    } else {
        "node"
    }
}

/// Each supported (os, arch) pair has its own Playwright platform and no
/// other pair has it; each platform has its own Node triple and no other
/// identifier has it; everything else is unsupported.
pub proof fn lemma_platform_and_triple_tables(os: Seq<char>, arch: Seq<char>, platform: Seq<char>)
    ensures
        (platform_spec(os, arch) == Some("mac"@)) == (os == "macos"@ && arch == "x86_64"@),
        (platform_spec(os, arch) == Some("mac-arm64"@)) == (os == "macos"@ && arch == "aarch64"@),
        (platform_spec(os, arch) == Some("linux"@)) == (os == "linux"@ && arch == "x86_64"@),
        (platform_spec(os, arch) == Some("linux-arm64"@)) == (os == "linux"@ && arch == "aarch64"@),
        (platform_spec(os, arch) == Some("win32_x64"@)) == (os == "windows"@ && arch == "x86_64"@),
        (platform_spec(os, arch) == Some("win32_arm64"@)) == (os == "windows"@ && arch == "aarch64"@),
        (platform_spec(os, arch) is None) == (!(os == "macos"@ && arch == "x86_64"@) && !(os == "macos"@ && arch == "aarch64"@) && !(os == "linux"@ && arch == "x86_64"@) && !(os == "linux"@ && arch == "aarch64"@) && !(os == "windows"@ && arch == "x86_64"@) && !(os == "windows"@ && arch == "aarch64"@)),
        (triple_spec(platform) == Some("darwin-x64"@)) == (platform == "mac"@),
        (triple_spec(platform) == Some("darwin-arm64"@)) == (platform == "mac-arm64"@),
        (triple_spec(platform) == Some("linux-x64"@)) == (platform == "linux"@),
        (triple_spec(platform) == Some("linux-arm64"@)) == (platform == "linux-arm64"@),
        (triple_spec(platform) == Some("win-x64"@)) == (platform == "win32_x64"@),
        (triple_spec(platform) == Some("win-arm64"@)) == (platform == "win32_arm64"@),
        (triple_spec(platform) is None) == (platform != "mac"@ && platform != "mac-arm64"@ && platform != "linux"@ && platform != "linux-arm64"@ && platform != "win32_x64"@ && platform != "win32_arm64"@),
{
    reveal_strlit("aarch64");
    reveal_strlit("darwin-arm64");
    reveal_strlit("darwin-x64");
    reveal_strlit("linux");
    reveal_strlit("linux-arm64");
    reveal_strlit("linux-x64");
    reveal_strlit("mac");
    reveal_strlit("mac-arm64");
    reveal_strlit("macos");
    reveal_strlit("win-arm64");
    reveal_strlit("win-x64");
    reveal_strlit("win32_arm64");
    reveal_strlit("win32_x64");
    reveal_strlit("windows");
    reveal_strlit("x86_64");
    assert("linux"@[0] != "macos"@[0]);
    assert("linux"@.len() != "windows"@.len());
    assert("macos"@.len() != "windows"@.len());
    assert("aarch64"@.len() != "x86_64"@.len());
    assert("mac"@.len() != "mac-arm64"@.len());
    assert("mac"@.len() != "linux"@.len());
    assert("mac"@.len() != "linux-arm64"@.len());
    assert("mac"@.len() != "win32_x64"@.len());
    assert("mac"@.len() != "win32_arm64"@.len());
    assert("mac-arm64"@.len() != "linux"@.len());
    assert("mac-arm64"@.len() != "linux-arm64"@.len());
    assert("mac-arm64"@[0] != "win32_x64"@[0]);
    assert("mac-arm64"@.len() != "win32_arm64"@.len());
    assert("linux"@.len() != "linux-arm64"@.len());
    assert("linux"@.len() != "win32_x64"@.len());
    assert("linux"@.len() != "win32_arm64"@.len());
    assert("linux-arm64"@.len() != "win32_x64"@.len());
    assert("linux-arm64"@[0] != "win32_arm64"@[0]);
    assert("win32_x64"@.len() != "win32_arm64"@.len());
    assert("darwin-x64"@.len() != "darwin-arm64"@.len());
    assert("darwin-x64"@.len() != "linux-x64"@.len());
    assert("darwin-x64"@.len() != "linux-arm64"@.len());
    assert("darwin-x64"@.len() != "win-x64"@.len());
    assert("darwin-x64"@.len() != "win-arm64"@.len());
    assert("darwin-arm64"@.len() != "linux-x64"@.len());
    assert("darwin-arm64"@.len() != "linux-arm64"@.len());
    assert("darwin-arm64"@.len() != "win-x64"@.len());
    assert("darwin-arm64"@.len() != "win-arm64"@.len());
    assert("linux-x64"@.len() != "linux-arm64"@.len());
    assert("linux-x64"@.len() != "win-x64"@.len());
    assert("linux-x64"@[0] != "win-arm64"@[0]);
    assert("linux-arm64"@.len() != "win-x64"@.len());
    assert("linux-arm64"@.len() != "win-arm64"@.len());
    assert("win-x64"@.len() != "win-arm64"@.len());
}

} // verus!
