//! Which ffmpeg, ffprobe and deno builds exist for a platform, and the URLs
//! they are downloaded from.

use vstd::prelude::*;
use crate::deps::platform::{Arch, Os};
use crate::deps::versions;
use crate::text::{concat2, concat3, concat4, owned, str_eq};

verus! {

/// The name of the ffmpeg release asset for a platform, if one is published.
pub open spec fn ffmpeg_asset(os: Os, arch: Arch) -> Option<Seq<char>> {
    match (os, arch) {
        (Os::Linux, Arch::X86_64) => Some("ffmpeg-linux-x64.gz"@),
        (Os::Linux, Arch::Aarch64) => Some("ffmpeg-linux-arm64.gz"@),
        (Os::Linux, Arch::Armv7l) => Some("ffmpeg-linux-arm.gz"@),
        (Os::Macos, Arch::X86_64) => Some("ffmpeg-darwin-x64.gz"@),
        (Os::Macos, Arch::Aarch64) => Some("ffmpeg-darwin-arm64.gz"@),
        (Os::Windows, Arch::X86_64) => Some("ffmpeg-win32-x64.gz"@),
        _ => None,
    }
}

/// The name of the ffprobe release asset for a platform, if one is published.
pub open spec fn ffprobe_asset(os: Os, arch: Arch) -> Option<Seq<char>> {
    match (os, arch) {
        (Os::Linux, Arch::X86_64) => Some("ffprobe-linux-x64.gz"@),
        (Os::Linux, Arch::Aarch64) => Some("ffprobe-linux-arm64.gz"@),
        (Os::Linux, Arch::Armv7l) => Some("ffprobe-linux-arm.gz"@),
        (Os::Macos, Arch::X86_64) => Some("ffprobe-darwin-x64.gz"@),
        (Os::Macos, Arch::Aarch64) => Some("ffprobe-darwin-arm64.gz"@),
        (Os::Windows, Arch::X86_64) => Some("ffprobe-win32-x64.gz"@),
        _ => None,
    }
}

/// The Rust target triple of the deno build for a platform, if one is
/// published (there is none for ARMv7).
pub open spec fn deno_triple(os: Os, arch: Arch) -> Option<Seq<char>> {
    match (os, arch) {
        (Os::Windows, Arch::X86_64) => Some("x86_64-pc-windows-msvc"@),
        (Os::Windows, Arch::Aarch64) => Some("aarch64-pc-windows-msvc"@),
        (Os::Linux, Arch::X86_64) => Some("x86_64-unknown-linux-gnu"@),
        (Os::Linux, Arch::Aarch64) => Some("aarch64-unknown-linux-gnu"@),
        (Os::Macos, Arch::X86_64) => Some("x86_64-apple-darwin"@),
        (Os::Macos, Arch::Aarch64) => Some("aarch64-apple-darwin"@),
        _ => None,
    }
}

/// The release path segment of a version: `latest/download` for `latest`,
/// `download/<version>` otherwise.
pub open spec fn release_path_of(version: Seq<char>) -> Seq<char> {
    if version == "latest"@ { "latest/download"@ } else { "download/"@ + version }
}

/// The download URL of a gzip asset of the ffmpeg-static releases.
pub open spec fn ffmpeg_static_url(version: Seq<char>, asset: Seq<char>) -> Seq<char> {
    "https://github.com/eugeneware/ffmpeg-static/releases/"@ + release_path_of(version) + "/"@ + asset
}

/// The download URL of a deno build.
pub open spec fn deno_url(version: Seq<char>, triple: Seq<char>) -> Seq<char> {
    "https://github.com/denoland/deno/releases/"@ + release_path_of(version) + "/deno-"@ + triple + ".zip"@
}

/// The message of a missing build for a platform.
pub open spec fn no_binary_message(tool: Seq<char>, os: Os, arch: Arch) -> Seq<char> {
    "No "@ + tool + " binary for "@ + os.name() + " "@ + arch.name()
}

/// The name of the ffmpeg release asset for a platform, if one is published.
pub fn ffmpeg_asset_filename(os: Os, arch: Arch) -> (r: Option<&'static str>)
    ensures
        r matches Some(s) ==> ffmpeg_asset(os, arch) == Some(s@),
        r is None ==> ffmpeg_asset(os, arch) is None,
{
    match (os, arch) {
        (Os::Linux, Arch::X86_64) => Some("ffmpeg-linux-x64.gz"),
        (Os::Linux, Arch::Aarch64) => Some("ffmpeg-linux-arm64.gz"),
        (Os::Linux, Arch::Armv7l) => Some("ffmpeg-linux-arm.gz"),
        (Os::Macos, Arch::X86_64) => Some("ffmpeg-darwin-x64.gz"),
        (Os::Macos, Arch::Aarch64) => Some("ffmpeg-darwin-arm64.gz"),
        (Os::Windows, Arch::X86_64) => Some("ffmpeg-win32-x64.gz"),
        _ => None,
    }
}

/// The name of the ffprobe release asset for a platform, if one is published.
pub fn ffprobe_asset_filename(os: Os, arch: Arch) -> (r: Option<&'static str>)
    ensures
        r matches Some(s) ==> ffprobe_asset(os, arch) == Some(s@),
        r is None ==> ffprobe_asset(os, arch) is None,
{
    match (os, arch) {
        (Os::Linux, Arch::X86_64) => Some("ffprobe-linux-x64.gz"),
        (Os::Linux, Arch::Aarch64) => Some("ffprobe-linux-arm64.gz"),
        (Os::Linux, Arch::Armv7l) => Some("ffprobe-linux-arm.gz"),
        (Os::Macos, Arch::X86_64) => Some("ffprobe-darwin-x64.gz"),
        (Os::Macos, Arch::Aarch64) => Some("ffprobe-darwin-arm64.gz"),
        (Os::Windows, Arch::X86_64) => Some("ffprobe-win32-x64.gz"),
        _ => None,
    }
}

/// The Rust target triple of the deno build for a platform, if one is published.
pub fn deno_target(os: Os, arch: Arch) -> (r: Option<&'static str>)
    ensures
        r matches Some(s) ==> deno_triple(os, arch) == Some(s@),
        r is None ==> deno_triple(os, arch) is None,
{
    match (os, arch) {
        (Os::Windows, Arch::X86_64) => Some("x86_64-pc-windows-msvc"),
        (Os::Windows, Arch::Aarch64) => Some("aarch64-pc-windows-msvc"),
        (Os::Linux, Arch::X86_64) => Some("x86_64-unknown-linux-gnu"),
        (Os::Linux, Arch::Aarch64) => Some("aarch64-unknown-linux-gnu"),
        (Os::Macos, Arch::X86_64) => Some("x86_64-apple-darwin"),
        (Os::Macos, Arch::Aarch64) => Some("aarch64-apple-darwin"),
        _ => None,
    }
}

fn release_path(version: &str) -> (s: String)
    ensures
        s@ == release_path_of(version@),
{
    if str_eq(version, "latest") { owned("latest/download") } else { concat2("download/", version) }
}

/// Whether an ffmpeg build is published for the platform.
pub fn ffmpeg_supported(os: Os, arch: Arch) -> (b: bool)
    ensures
        b == ffmpeg_asset(os, arch) is Some,
{
    ffmpeg_asset_filename(os, arch).is_some()
}

/// Whether a deno build is published for the platform.
pub fn deno_supported(os: Os, arch: Arch) -> (b: bool)
    ensures
        b == deno_triple(os, arch) is Some,
{
    deno_target(os, arch).is_some()
}

fn missing_binary(tool: &str, os: Os, arch: Arch) -> (s: String)
    ensures
        s@ == no_binary_message(tool@, os, arch),
{
    let o = os.to_string();
    let a = arch.to_string();
    let head = concat3("No ", tool, " binary for ");
    concat4(head.as_str(), o.as_str(), " ", a.as_str())
}

/// The URL of the ffmpeg build for a platform at a version; a platform
/// without one is an error naming it.
pub fn try_ffmpeg_download_url(os: Os, arch: Arch, version: &str) -> (r: Result<String, String>)
    ensures
        ffmpeg_asset(os, arch) matches Some(a) ==> (r matches Ok(u) && u@ == ffmpeg_static_url(version@, a)),
        ffmpeg_asset(os, arch) is None ==> (r matches Err(m) && m@ == no_binary_message("ffmpeg"@, os, arch)),
{
    match ffmpeg_asset_filename(os, arch) {
        Some(file) => {
            let rp = release_path(version);
            Ok(concat4("https://github.com/eugeneware/ffmpeg-static/releases/", rp.as_str(), "/", file))
        },
        None => Err(missing_binary("ffmpeg", os, arch)),
    }
}

/// The URL of the ffmpeg build for a platform that has one.
pub fn ffmpeg_download_url(os: Os, arch: Arch, version: &str) -> (u: String)
    requires
        ffmpeg_asset(os, arch) is Some,
    ensures
        u@ == ffmpeg_static_url(version@, ffmpeg_asset(os, arch).unwrap()),
{
    match try_ffmpeg_download_url(os, arch, version) {
        Ok(u) => u,
        Err(m) => m,
    }
}

/// The URL of the ffprobe build for a platform at a version; a platform
/// without one is an error naming it.
pub fn try_ffprobe_download_url(os: Os, arch: Arch, version: &str) -> (r: Result<String, String>)
    ensures
        ffprobe_asset(os, arch) matches Some(a) ==> (r matches Ok(u) && u@ == ffmpeg_static_url(version@, a)),
        ffprobe_asset(os, arch) is None ==> (r matches Err(m) && m@ == no_binary_message("ffprobe"@, os, arch)),
{
    match ffprobe_asset_filename(os, arch) {
        Some(file) => {
            let rp = release_path(version);
            Ok(concat4("https://github.com/eugeneware/ffmpeg-static/releases/", rp.as_str(), "/", file))
        },
        None => Err(missing_binary("ffprobe", os, arch)),
    }
}

/// The URL of the ffprobe build for a platform that has one.
pub fn ffprobe_download_url(os: Os, arch: Arch, version: &str) -> (u: String)
    requires
        ffprobe_asset(os, arch) is Some,
    ensures
        u@ == ffmpeg_static_url(version@, ffprobe_asset(os, arch).unwrap()),
{
    match try_ffprobe_download_url(os, arch, version) {
        Ok(u) => u,
        Err(m) => m,
    }
}

/// The URL of the deno build for a platform at a version; a platform
/// without one is an error naming it.
pub fn try_deno_download_url(os: Os, arch: Arch, version: &str) -> (r: Result<String, String>)
    ensures
        deno_triple(os, arch) matches Some(t) ==> (r matches Ok(u) && u@ == deno_url(version@, t)),
        deno_triple(os, arch) is None ==> (r matches Err(m) && m@ == no_binary_message("deno"@, os, arch)),
{
    match deno_target(os, arch) {
        Some(target) => {
            let rp = release_path(version);
            let head = concat3("https://github.com/denoland/deno/releases/", rp.as_str(), "/deno-");
            Ok(concat3(head.as_str(), target, ".zip"))
        },
        None => Err(missing_binary("deno", os, arch)),
    }
}

/// The URL of the deno build for a platform that has one.
pub fn deno_download_url(os: Os, arch: Arch, version: &str) -> (u: String)
    requires
        deno_triple(os, arch) is Some,
    ensures
        u@ == deno_url(version@, deno_triple(os, arch).unwrap()),
{
    match try_deno_download_url(os, arch, version) {
        Ok(u) => u,
        Err(m) => m,
    }
}

/// The ffmpeg version installed by default.
pub fn default_ffmpeg_version() -> (s: String)
    ensures
        s@ == "latest"@,
{
    versions::default_ffmpeg_version()
}

/// The deno version installed by default.
pub fn default_deno_version() -> (s: String)
    ensures
        s@ == "latest"@,
{
    versions::default_deno_version()
}

/// The yt-dlp channel installed by default.
pub fn default_yt_dlp_channel() -> (s: String)
    ensures
        s@ == "stable"@,
{
    versions::default_yt_dlp_channel()
}

// ---------------------------------------------------------------- laws

/// ffprobe is published for exactly the platforms that ffmpeg is published
/// for, so it can always be installed alongside.
pub proof fn law_ffprobe_alongside_ffmpeg(os: Os, arch: Arch)
    ensures
        ffmpeg_asset(os, arch) is Some <==> ffprobe_asset(os, arch) is Some,
{
}

/// deno is published for every platform but ARMv7, and ffmpeg for every
/// platform but Windows on ARM and macOS on ARMv7.
pub proof fn law_supported_platforms(os: Os, arch: Arch)
    ensures
        deno_triple(os, arch) is Some <==> arch != Arch::Armv7l,
        ffmpeg_asset(os, arch) is None <==> ((os == Os::Windows && arch != Arch::X86_64) || (os == Os::Macos && arch == Arch::Armv7l)),
{
}

} // verus!
