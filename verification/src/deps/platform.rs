//! Operating systems and CPU architectures, the file names of the runtime
//! dependencies on each, the yt-dlp release asset and download URL, and the
//! per-user directories of the application.

use vstd::prelude::*;
use crate::text::{concat2, concat4, owned, str_eq};

verus! {

pub const APP_NAME: &'static str = "souris-dw";
pub const APP_ORG: &'static str = "souris";
pub const APP_QUALIFIER: &'static str = "io";

#[derive(Debug, Clone, Copy, PartialEq, Eq, Structural)]
pub enum Os {
    Linux,
    Macos,
    Windows,
}

#[derive(Debug, Clone, Copy, PartialEq, Eq, Structural)]
pub enum Arch {
    X86_64,
    Aarch64,
    Armv7l,
}

impl Os {
    /// The display name of the operating system.
    pub open spec fn name(self) -> Seq<char> {
        match self {
            Os::Linux => "linux"@,
            Os::Macos => "macos"@,
            Os::Windows => "windows"@,
        }
    }

    /// The display name of the operating system.
    pub fn to_string(&self) -> (s: String)
        ensures
            s@ == self.name(),
    {
        match self {
            Os::Linux => owned("linux"),
            Os::Macos => owned("macos"),
            Os::Windows => owned("windows"),
        }
    }
}

impl Arch {
    /// The display name of the architecture.
    pub open spec fn name(self) -> Seq<char> {
        match self {
            Arch::X86_64 => "x86_64"@,
            Arch::Aarch64 => "aarch64"@,
            Arch::Armv7l => "armv7l"@,
        }
    }

    /// The display name of the architecture.
    pub fn to_string(&self) -> (s: String)
        ensures
            s@ == self.name(),
    {
        match self {
            Arch::X86_64 => owned("x86_64"),
            Arch::Aarch64 => owned("aarch64"),
            Arch::Armv7l => owned("armv7l"),
        }
    }
}

/// The operating system that Rust's `std::env::consts::OS` name stands for.
pub open spec fn os_named(name: Seq<char>) -> Option<Os> {
    if name == "linux"@ { Some(Os::Linux) }
    else if name == "macos"@ { Some(Os::Macos) }
    else if name == "windows"@ { Some(Os::Windows) }
    else { None }
}

/// The architecture that Rust's `std::env::consts::ARCH` name stands for.
pub open spec fn arch_named(name: Seq<char>) -> Option<Arch> {
    if name == "x86_64"@ { Some(Arch::X86_64) }
    else if name == "aarch64"@ || name == "arm64"@ { Some(Arch::Aarch64) }
    else if name == "armv7l"@ { Some(Arch::Armv7l) }
    else { None }
}

/// The operating system named by a `std::env::consts::OS` value; an
/// unsupported one is an error naming it.
pub fn os_from_name(name: &str) -> (r: Result<Os, String>)
    ensures
        os_named(name@) matches Some(os) ==> r == Ok::<Os, String>(os),
        os_named(name@) is None ==> (r matches Err(m) && m@ == "Unsupported OS: "@ + name@),
{
    if str_eq(name, "linux") { Ok(Os::Linux) }
    else if str_eq(name, "macos") { Ok(Os::Macos) }
    else if str_eq(name, "windows") { Ok(Os::Windows) }
    else { Err(concat2("Unsupported OS: ", name)) }
}

/// The architecture named by a `std::env::consts::ARCH` value; an
/// unsupported one is an error naming it.
pub fn arch_from_name(name: &str) -> (r: Result<Arch, String>)
    ensures
        arch_named(name@) matches Some(a) ==> r == Ok::<Arch, String>(a),
        arch_named(name@) is None ==> (r matches Err(m) && m@ == "Unsupported architecture: "@ + name@),
{
    if str_eq(name, "x86_64") { Ok(Arch::X86_64) }
    else if str_eq(name, "aarch64") || str_eq(name, "arm64") { Ok(Arch::Aarch64) }
    else if str_eq(name, "armv7l") { Ok(Arch::Armv7l) }
    else { Err(concat2("Unsupported architecture: ", name)) }
}

/// The executable file name of a tool on an operating system: Windows adds
/// `.exe`.
pub open spec fn exe_name(tool: Seq<char>, os: Os) -> Seq<char> {
    if os == Os::Windows { tool + ".exe"@ } else { tool }
}

fn exe_file_name(tool: &str, os: Os) -> (s: String)
    ensures
        s@ == exe_name(tool@, os),
{
    if os == Os::Windows { concat2(tool, ".exe") } else { owned(tool) }
}

/// The file name of the yt-dlp executable on `os`.
pub fn yt_dlp_binary_name(os: Os) -> (s: String)
    ensures
        s@ == exe_name("yt-dlp"@, os),
{
    exe_file_name("yt-dlp", os)
}

/// The file name of the ffmpeg executable on `os`.
pub fn ffmpeg_binary_name(os: Os) -> (s: String)
    ensures
        s@ == exe_name("ffmpeg"@, os),
{
    exe_file_name("ffmpeg", os)
}

/// The file name of the ffprobe executable on `os`.
pub fn ffprobe_binary_name(os: Os) -> (s: String)
    ensures
        s@ == exe_name("ffprobe"@, os),
{
    exe_file_name("ffprobe", os)
}

/// The file name of the deno executable on `os`.
pub fn deno_binary_name(os: Os) -> (s: String)
    ensures
        s@ == exe_name("deno"@, os),
{
    exe_file_name("deno", os)
}

/// Whether yt-dlp publishes a build for the platform: every one but
/// Windows on ARMv7.
pub open spec fn yt_dlp_release_exists(os: Os, arch: Arch) -> bool {
    !(os == Os::Windows && arch == Arch::Armv7l)
}

/// The name of yt-dlp's release asset for a platform.
pub open spec fn yt_dlp_asset(os: Os, arch: Arch) -> Seq<char> {
    match (os, arch) {
        (Os::Linux, Arch::X86_64) => "yt-dlp_linux"@,
        (Os::Linux, Arch::Aarch64) => "yt-dlp_linux_aarch64"@,
        (Os::Linux, Arch::Armv7l) => "yt-dlp_linux_armv7l"@,
        (Os::Macos, _) => "yt-dlp_macos"@,
        (Os::Windows, Arch::X86_64) => "yt-dlp.exe"@,
        (Os::Windows, _) => "yt-dlp_arm64.exe"@,
    }
}

/// The name of yt-dlp's release asset for a platform that has one.
pub fn yt_dlp_release_filename_for(os: Os, arch: Arch) -> (s: &'static str)
    requires
        yt_dlp_release_exists(os, arch),
    ensures
        s@ == yt_dlp_asset(os, arch),
{
    match (os, arch) {
        (Os::Linux, Arch::X86_64) => "yt-dlp_linux",
        (Os::Linux, Arch::Aarch64) => "yt-dlp_linux_aarch64",
        (Os::Linux, Arch::Armv7l) => "yt-dlp_linux_armv7l",
        (Os::Macos, _) => "yt-dlp_macos",
        (Os::Windows, Arch::X86_64) => "yt-dlp.exe",
        (Os::Windows, _) => "yt-dlp_arm64.exe",
    }
}

/// The release path segment of a yt-dlp version: `latest/download` for the
/// `latest` and `stable` channels, `download/<version>` otherwise.
pub open spec fn yt_dlp_release_path(version: Seq<char>) -> Seq<char> {
    if version == "latest"@ || version == "stable"@ {
        "latest/download"@
    } else {
        "download/"@ + version
    }
}

/// The URL of the yt-dlp build for a platform at a version or channel.
pub open spec fn yt_dlp_url(os: Os, arch: Arch, version: Seq<char>) -> Seq<char> {
    "https://github.com/yt-dlp/yt-dlp/releases/"@ + yt_dlp_release_path(version) + "/"@
        + yt_dlp_asset(os, arch)
}

/// The URL of the yt-dlp build for a platform that has one.
pub fn yt_dlp_download_url(os: Os, arch: Arch, version: &str) -> (s: String)
    requires
        yt_dlp_release_exists(os, arch),
    ensures
        s@ == yt_dlp_url(os, arch, version@),
{
    let release_path = if str_eq(version, "latest") || str_eq(version, "stable") {
        owned("latest/download")
    } else {
        concat2("download/", version)
    };
    concat4("https://github.com/yt-dlp/yt-dlp/releases/", release_path.as_str(), "/",
        yt_dlp_release_filename_for(os, arch))
}

#[verifier::external_type_specification]
#[verifier::external_body]
pub struct ExProjectDirs(directories::ProjectDirs);

/// The per-user directories of an application.
///
/// Calls `directories::ProjectDirs::from`. Whether the platform has such
/// directories depends on the environment (a home directory), so nothing is
/// stated of the result.
#[verifier::external_body]
fn project_dirs_for(qualifier: &str, organization: &str, application: &str) -> Option<directories::ProjectDirs> {
    directories::ProjectDirs::from(qualifier, organization, application)
}

/// The configuration directory of a set of project directories.
///
/// Calls `ProjectDirs::config_dir`; the path depends on the environment,
/// so nothing is stated of it.
#[verifier::external_body]
fn config_dir_of(d: &directories::ProjectDirs) -> String {
    d.config_dir().to_string_lossy().into_owned()
}

/// The data directory of a set of project directories.
///
/// Calls `ProjectDirs::data_dir`; the path depends on the environment, so
/// nothing is stated of it.
#[verifier::external_body]
fn data_dir_of(d: &directories::ProjectDirs) -> String {
    d.data_dir().to_string_lossy().into_owned()
}

/// The cache directory of a set of project directories.
///
/// Calls `ProjectDirs::cache_dir`; the path depends on the environment, so
/// nothing is stated of it.
#[verifier::external_body]
fn cache_dir_of(d: &directories::ProjectDirs) -> String {
    d.cache_dir().to_string_lossy().into_owned()
}

/// The per-user directories of this application, where the platform has
/// them. They are asked for under the application name alone, with no
/// qualifier and no organization, so that every platform names the
/// directory `souris-dw` (`~/.config/souris-dw`, `~/Library/Application
/// Support/souris-dw`, `%APPDATA%\souris-dw\config`).
pub fn project_dirs() -> Option<directories::ProjectDirs> {
    project_dirs_for("", "", APP_NAME)
}

/// The per-user configuration directory of the application, where the
/// platform has one.
pub fn config_dir() -> Option<String> {
    match project_dirs() {
        Some(d) => Some(config_dir_of(&d)),
        None => None,
    }
}

/// The per-user data directory of the application, where the platform has
/// one.
pub fn data_dir() -> Option<String> {
    match project_dirs() {
        Some(d) => Some(data_dir_of(&d)),
        None => None,
    }
}

/// The per-user cache directory of the application, where the platform has
/// one.
pub fn cache_dir() -> Option<String> {
    match project_dirs() {
        Some(d) => Some(cache_dir_of(&d)),
        None => None,
    }
}

/// The directory the dependencies are installed into: `bin` under the data
/// directory `data_dir`, or `souris-dw/bin` under the temporary directory
/// `temp_dir` when there is no data directory.
pub fn bin_dir_in(data_dir: Option<&str>, temp_dir: &str) -> (r: String)
    ensures
        data_dir matches Some(d) ==> crate::utils::fs::join_step(d@, "bin"@, r@),
        data_dir is None ==> exists|mid: Seq<char>| crate::utils::fs::join_step(temp_dir@, "souris-dw"@, mid)
            && #[trigger] crate::utils::fs::join_step(mid, "bin"@, r@),
{
    proof {
        reveal_strlit("bin");
        reveal_strlit("souris-dw");
    }
    match data_dir {
        Some(d) => crate::utils::fs::join_path(d, "bin"),
        None => {
            let app = crate::utils::fs::join_path(temp_dir, "souris-dw");
            crate::utils::fs::join_path(app.as_str(), "bin")
        },
    }
}
} // verus!
