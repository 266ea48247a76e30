//! The portable copy of VS Code in which extensions are tried out: where it
//! is downloaded from and where its programs are found.

use crate::text::{same_text, texts};
use vstd::prelude::*;
use vstd::string::StringExecFns;

verus! {

/// The file name of the VS Code program on the operating system `os`.
pub open spec fn code_binary_name(os: Seq<char>) -> Seq<char> {
    if os == "macos"@ {
        "Visual Studio Code.app"@
    } else if os == "windows"@ {
        "Code.exe"@
    } else {
        "code"@
    }
}

/// Returns an OS-specific filename that corresponds to the VS Code binary.
pub fn code_binary(os: &str) -> (name: String)
    ensures
        name@ == code_binary_name(os@),
{
    if same_text(os, "macos") {
        String::from_str("Visual Studio Code.app")
    } else if same_text(os, "windows") {
        String::from_str("Code.exe")
    } else {
        String::from_str("code")
    }
}

/// The name under which the update server offers VS Code for an operating
/// system and a processor, or `None` for an operating system that it does
/// not serve.
pub open spec fn platform(os: Seq<char>, arch: Seq<char>) -> Option<Seq<char>> {
    if os == "linux"@ {
        if arch == "aarch64"@ {
            Some("linux-arm64"@)
        } else {
            Some("linux-x64"@)
        }
    } else if os == "macos"@ {
        Some("darwin-universal"@)
    } else if os == "windows"@ {
        if arch == "aarch64"@ {
            Some("win32-arm64-archive"@)
        } else {
            Some("win32-x64-archive"@)
        }
    } else {
        None
    }
}

/// Why no download URL could be built.
#[derive(Clone, Copy, Debug, PartialEq, Eq, Structural)]
pub enum UrlError {
    /// The update server does not serve this operating system.
    UnsupportedOs,
}

impl UrlError {
    /// The message shown to the user.
    pub fn message(&self) -> (text: String)
        ensures
            text@ == "OS is not supported."@,
    {
        String::from_str("OS is not supported.")
    }
}

/// The URL of the stable release of a version of VS Code for a platform.
pub open spec fn release_url(version: Seq<char>, platform: Seq<char>) -> Seq<char> {
    "https://update.code.visualstudio.com/"@ + version + "/"@ + platform + "/stable"@
}

/// The name under which the update server offers VS Code for a platform.
fn platform_of(os: &str, arch: &str) -> (r: Option<&'static str>)
    ensures
        r is Some == platform(os@, arch@) is Some,
        r matches Some(p) ==> platform(os@, arch@) == Some(p@),
{
    if same_text(os, "linux") {
        if same_text(arch, "aarch64") {
            Some("linux-arm64")
        } else {
            Some("linux-x64")
        }
    } else if same_text(os, "macos") {
        Some("darwin-universal")
    } else if same_text(os, "windows") {
        if same_text(arch, "aarch64") {
            Some("win32-arm64-archive")
        } else {
            Some("win32-x64-archive")
        }
    } else {
        None
    }
}

/// Returns a URL for the VS Code release for the given operating system and
/// processor with the given version. Whether the URL exists is found out
/// when it is asked for.
pub fn build_url(version: &String, os: &str, arch: &str) -> (r: Result<String, UrlError>)
    ensures
        match platform(os@, arch@) {
            Some(p) => r matches Ok(url) && url@ == release_url(version@, p),
            None => r == Err::<String, UrlError>(UrlError::UnsupportedOs),
        },
{
    match platform_of(os, arch) {
        Some(p) => {
            let mut url = String::from_str("https://update.code.visualstudio.com/");
            url.append(version.as_str());
            url.append("/");
            url.append(p);
            url.append("/stable");
            Ok(url)
        },
        None => Err(UrlError::UnsupportedOs),
    }
}

/// The path of the Code CLI program below the directory into which VS Code
/// was extracted, as its parts.
pub open spec fn cli_path(os: Seq<char>, arch: Seq<char>) -> Seq<Seq<char>> {
    if os == "windows"@ {
        seq!["bin"@, "code.cmd"@]
    } else if os == "macos"@ {
        seq!["Visual Studio Code.app"@, "Contents/Resources/app/bin/code"@]
    } else if arch == "x86_64"@ {
        seq!["VSCode-linux-x64"@, "bin"@, "code"@]
    } else {
        seq!["VSCode-linux-aarch64"@, "bin"@, "code"@]
    }
}

/// Returns the path to the Code CLI binary, relative to the directory where
/// the desired VS Code version was extracted, as the parts to join to it.
pub fn code_cli_binary(os: &str, arch: &str) -> (path: Vec<String>)
    ensures
        texts(path@) == cli_path(os@, arch@),
{
    let mut path: Vec<String> = Vec::new();
    if same_text(os, "windows") {
        path.push(String::from_str("bin"));
        path.push(String::from_str("code.cmd"));
    } else if same_text(os, "macos") {
        path.push(String::from_str("Visual Studio Code.app"));
        path.push(String::from_str("Contents/Resources/app/bin/code"));
    } else {
        if same_text(arch, "x86_64") {
            path.push(String::from_str("VSCode-linux-x64"));
        } else {
            path.push(String::from_str("VSCode-linux-aarch64"));
        }
        path.push(String::from_str("bin"));
        path.push(String::from_str("code"));
    }
    assert(texts(path@) == cli_path(os@, arch@));
    path
}

/// What to do about a version of VS Code before it is downloaded.
#[derive(Clone, Copy, Debug, PartialEq, Eq, Structural)]
pub enum CachePolicy {
    /// No copy is there: download it.
    Download,
    /// A copy of `latest` is there, which may be old: remove it and
    /// download again.
    Refresh,
    /// A copy of a fixed version is there: use it.
    UseCached,
}

/// What to do about a version of which a copy is there or not.
pub open spec fn cache_policy(version: Seq<char>, cached: bool) -> CachePolicy {
    if !cached {
        CachePolicy::Download
    } else if version == "latest"@ {
        CachePolicy::Refresh
    } else {
        CachePolicy::UseCached
    }
}

/// The version to download: the one asked for, or `latest`.
pub fn version_or_latest(version: Option<String>) -> (v: String)
    ensures
        v@ == match version {
            Some(asked) => asked@,
            None => "latest"@,
        },
{
    match version {
        Some(asked) => asked,
        None => String::from_str("latest"),
    }
}

/// Decides what to do about a version of which a copy is there or not.
pub fn cached_copy_policy(version: &str, cached: bool) -> (policy: CachePolicy)
    ensures
        policy == cache_policy(version@, cached),
{
    if !cached {
        CachePolicy::Download
    } else if same_text(version, "latest") {
        CachePolicy::Refresh
    } else {
        CachePolicy::UseCached
    }
}

/// The file name under which a download is kept: the last segment of its
/// URL, or `tmp-vscode.bin` where the URL has none or an empty one.
pub fn download_name(last_segment: Option<&str>) -> (name: String)
    ensures
        name@ == match last_segment {
            Some(segment) => if segment@.len() == 0 {
                "tmp-vscode.bin"@
            } else {
                segment@
            },
            None => "tmp-vscode.bin"@,
        },
{
    match last_segment {
        Some(segment) => {
            if segment.unicode_len() == 0 {
                String::from_str("tmp-vscode.bin")
            } else {
                String::from_str(segment)
            }
        },
        None => String::from_str("tmp-vscode.bin"),
    }
}

/// How an archive of VS Code is packed.
#[derive(Clone, Copy, Debug, PartialEq, Eq, Structural)]
pub enum ArchiveKind {
    /// A ZIP archive.
    Zip,
    /// A gzipped tar archive.
    TarGz,
}

/// How the archive with the file extension `extension` is packed: `zip` is
/// a ZIP archive; `tgz` and `gz` are gzipped tar archives, which are not
/// unpacked on Windows. `None` for an archive that cannot be unpacked.
pub open spec fn archive_kind(extension: Seq<char>, windows: bool) -> Option<ArchiveKind> {
    if extension == "zip"@ {
        Some(ArchiveKind::Zip)
    } else if !windows && (extension == "tgz"@ || extension == "gz"@) {
        Some(ArchiveKind::TarGz)
    } else {
        None
    }
}

/// Tells how a downloaded archive is packed, by its file extension.
pub fn archive_of(extension: &str, windows: bool) -> (kind: Option<ArchiveKind>)
    ensures
        kind == archive_kind(extension@, windows),
{
    if same_text(extension, "zip") {
        Some(ArchiveKind::Zip)
    } else if !windows && (same_text(extension, "tgz") || same_text(extension, "gz")) {
        Some(ArchiveKind::TarGz)
    } else {
        None
    }
}

/// Whether a file with this extension is an extension package that the
/// `gh-repo` subcommand installs.
pub fn is_vsix(extension: &str) -> (b: bool)
    ensures
        b == (extension@ == "vsix"@),
{
    same_text(extension, "vsix")
}

} // verus!
