//! The user configuration: its defaults and the dotted keys through which
//! single settings are read and changed.

use vstd::prelude::*;
use crate::error::SourisError;
use crate::deps::platform::config_dir;
use crate::utils::paths::{default_download_dir, default_download_dir_in, is_default_download_dir};
use crate::deps::yt_dlp::opt_str_view;
use crate::utils::fs::{join_step, join_path};
use crate::text::{concat2, decimal, digits_value, owned, parse_unsigned, parse_unsigned_bounded,
    str_eq, u64_to_string, unsigned_body, lemma_parse_decimal, lemma_decimal_value};

verus! {

#[derive(Debug, Clone)]
pub struct AppConfig {
    pub yt_dlp: YtDlpConfig,
    pub ffmpeg: FFmpegConfig,
    pub download: DownloadConfig,
    pub spotify: Option<SpotifyConfig>,
}

#[derive(Debug, Clone)]
pub struct YtDlpConfig {
    pub auto_update: bool,
    pub channel: String,
}

#[derive(Debug, Clone)]
pub struct FFmpegConfig {
    pub auto_update: bool,
}

#[derive(Debug, Clone)]
pub struct DownloadConfig {
    pub default_format: String,
    pub default_quality: String,
    pub output_dir: String,
    pub parallel: usize,
    pub embed_metadata: bool,
    pub embed_thumbnail: bool,
    pub embed_subtitles: bool,
    pub timeout: u64,
    pub max_retries: u32,
}

#[derive(Debug, Clone)]
pub struct SpotifyConfig {
    pub client_id: String,
    pub client_secret: String,
}

/// The abstract content of a configuration: every setting as a value.
pub ghost struct ConfigView {
    pub yt_dlp_auto_update: bool,
    pub yt_dlp_channel: Seq<char>,
    pub ffmpeg_auto_update: bool,
    pub default_format: Seq<char>,
    pub default_quality: Seq<char>,
    pub output_dir: Seq<char>,
    pub parallel: nat,
    pub embed_metadata: bool,
    pub embed_thumbnail: bool,
    pub embed_subtitles: bool,
    pub timeout: nat,
    pub max_retries: nat,
    pub spotify: Option<(Seq<char>, Seq<char>)>,
}

impl View for AppConfig {
    type V = ConfigView;

    open spec fn view(&self) -> ConfigView {
        ConfigView {
            yt_dlp_auto_update: self.yt_dlp.auto_update,
            yt_dlp_channel: self.yt_dlp.channel@,
            ffmpeg_auto_update: self.ffmpeg.auto_update,
            default_format: self.download.default_format@,
            default_quality: self.download.default_quality@,
            output_dir: self.download.output_dir@,
            parallel: self.download.parallel as nat,
            embed_metadata: self.download.embed_metadata,
            embed_thumbnail: self.download.embed_thumbnail,
            embed_subtitles: self.download.embed_subtitles,
            timeout: self.download.timeout as nat,
            max_retries: self.download.max_retries as nat,
            spotify: match self.spotify {
                Some(s) => Some((s.client_id@, s.client_secret@)),
                None => None,
            },
        }
    }
}

/// The text of a boolean setting.
pub open spec fn bool_text(b: bool) -> Seq<char> {
    if b { "true"@ } else { "false"@ }
}

/// How `str::parse::<bool>` reads a boolean: exactly `true` or `false`.
pub open spec fn parse_bool(s: Seq<char>) -> Option<bool> {
    if s == "true"@ { Some(true) } else if s == "false"@ { Some(false) } else { None }
}

/// The keys whose values are booleans.
pub open spec fn is_bool_key(k: Seq<char>) -> bool {
    k == "yt_dlp.auto_update"@ || k == "ffmpeg.auto_update"@ || k == "download.embed_metadata"@
        || k == "download.embed_thumbnail"@ || k == "download.embed_subtitles"@
}

/// The keys whose values are numbers.
pub open spec fn is_number_key(k: Seq<char>) -> bool {
    k == "download.parallel"@ || k == "download.timeout"@ || k == "download.max_retries"@
}

/// The keys whose values are free text.
pub open spec fn is_text_key(k: Seq<char>) -> bool {
    k == "yt_dlp.channel"@ || k == "download.default_format"@ || k == "download.default_quality"@
        || k == "download.output_dir"@
}

/// Every key that can be read and set.
pub open spec fn is_known_key(k: Seq<char>) -> bool {
    is_bool_key(k) || is_number_key(k) || is_text_key(k)
}

/// The value of a setting, as text.
pub open spec fn config_get(c: ConfigView, k: Seq<char>) -> Option<Seq<char>> {
    if k == "yt_dlp.auto_update"@ { Some(bool_text(c.yt_dlp_auto_update)) }
    else if k == "yt_dlp.channel"@ { Some(c.yt_dlp_channel) }
    else if k == "ffmpeg.auto_update"@ { Some(bool_text(c.ffmpeg_auto_update)) }
    else if k == "download.default_format"@ { Some(c.default_format) }
    else if k == "download.default_quality"@ { Some(c.default_quality) }
    else if k == "download.output_dir"@ { Some(c.output_dir) }
    else if k == "download.parallel"@ { Some(decimal(c.parallel)) }
    else if k == "download.embed_metadata"@ { Some(bool_text(c.embed_metadata)) }
    else if k == "download.embed_thumbnail"@ { Some(bool_text(c.embed_thumbnail)) }
    else if k == "download.embed_subtitles"@ { Some(bool_text(c.embed_subtitles)) }
    else if k == "download.timeout"@ { Some(decimal(c.timeout)) }
    else if k == "download.max_retries"@ { Some(decimal(c.max_retries)) }
    else { None }
}

/// The configuration after setting key `k` from text `v`, or `None` when
/// the key is unknown or the text is not a value of the key's type.
pub open spec fn config_set(c: ConfigView, k: Seq<char>, v: Seq<char>) -> Option<ConfigView> {
    if k == "yt_dlp.auto_update"@ {
        match parse_bool(v) { Some(b) => Some(ConfigView { yt_dlp_auto_update: b, ..c }), None => None }
    } else if k == "yt_dlp.channel"@ {
        Some(ConfigView { yt_dlp_channel: v, ..c })
    } else if k == "ffmpeg.auto_update"@ {
        match parse_bool(v) { Some(b) => Some(ConfigView { ffmpeg_auto_update: b, ..c }), None => None }
    } else if k == "download.default_format"@ {
        Some(ConfigView { default_format: v, ..c })
    } else if k == "download.default_quality"@ {
        Some(ConfigView { default_quality: v, ..c })
    } else if k == "download.output_dir"@ {
        Some(ConfigView { output_dir: v, ..c })
    } else if k == "download.parallel"@ {
        match parse_unsigned(v, usize::MAX as nat) { Some(n) => Some(ConfigView { parallel: n, ..c }), None => None }
    } else if k == "download.embed_metadata"@ {
        match parse_bool(v) { Some(b) => Some(ConfigView { embed_metadata: b, ..c }), None => None }
    } else if k == "download.embed_thumbnail"@ {
        match parse_bool(v) { Some(b) => Some(ConfigView { embed_thumbnail: b, ..c }), None => None }
    } else if k == "download.embed_subtitles"@ {
        match parse_bool(v) { Some(b) => Some(ConfigView { embed_subtitles: b, ..c }), None => None }
    } else if k == "download.timeout"@ {
        match parse_unsigned(v, u64::MAX as nat) { Some(n) => Some(ConfigView { timeout: n, ..c }), None => None }
    } else if k == "download.max_retries"@ {
        match parse_unsigned(v, u32::MAX as nat) { Some(n) => Some(ConfigView { max_retries: n, ..c }), None => None }
    } else {
        None
    }
}

/// The message of the error that a failed setting carries.
pub open spec fn config_set_error(k: Seq<char>, v: Seq<char>) -> Seq<char> {
    if is_bool_key(k) {
        "Invalid boolean: "@ + v
    } else if is_number_key(k) {
        "Invalid number: "@ + v
    } else {
        "Unknown key: "@ + k
    }
}

/// The text a value set under key `k` reads back as: numbers are rewritten
/// in plain decimal, every other value reads back unchanged.
pub open spec fn canonical_value(k: Seq<char>, v: Seq<char>) -> Seq<char> {
    if is_number_key(k) { decimal(digits_value(unsigned_body(v))) } else { v }
}

fn bool_to_string(b: bool) -> (s: String)
    ensures
        s@ == bool_text(b),
{
    if b { owned("true") } else { owned("false") }
}

fn parse_bool_text(s: &str) -> (r: Option<bool>)
    ensures
        r == parse_bool(s@),
{
    if str_eq(s, "true") { Some(true) } else if str_eq(s, "false") { Some(false) } else { None }
}

/// The default settings, downloading into `output_dir`: yt-dlp on the
/// nightly channel with automatic updates, ffmpeg without them, mp4 at 1080p, four parallel
/// downloads, metadata and thumbnails embedded, no subtitles, a timeout of
/// 300 seconds, three retries and no Spotify credentials.
pub open spec fn default_view(output_dir: Seq<char>) -> ConfigView {
    ConfigView {
        yt_dlp_auto_update: true,
        yt_dlp_channel: "nightly"@,
        ffmpeg_auto_update: false,
        default_format: "mp4"@,
        default_quality: "1080p"@,
        output_dir,
        parallel: 4,
        embed_metadata: true,
        embed_thumbnail: true,
        embed_subtitles: false,
        timeout: 300,
        max_retries: 3,
        spotify: None,
    }
}

/// The path of the configuration file in the configuration directory
/// `config_dir`; none when there is no such directory.
pub fn config_path_in(config_dir: Option<&str>) -> (r: Option<String>)
    ensures
        config_dir is None ==> r is None,
        config_dir matches Some(d) ==> (r matches Some(p) && join_step(d@, "config.toml"@, p@)),
{
    proof {
        reveal_strlit("config.toml");
    }
    match config_dir {
        Some(d) => Some(join_path(d, "config.toml")),
        None => None,
    }
}

impl Default for AppConfig {
    /// The defaults (see [`default_view`]), downloading into this user's
    /// default download directory (see [`default_download_dir`]).
    fn default() -> (c: AppConfig)
        ensures
            c@ == default_view(c@.output_dir),
    {
        let dir = default_download_dir();
        AppConfig::with_output_dir(dir.as_str())
    }
}

impl AppConfig {
    /// The defaults, downloading into `output_dir` (see [`default_view`]).
    pub fn with_output_dir(output_dir: &str) -> (c: AppConfig)
        ensures
            c@ == default_view(output_dir@),
    {
        AppConfig {
            yt_dlp: YtDlpConfig { auto_update: true, channel: owned("nightly") },
            ffmpeg: FFmpegConfig { auto_update: false },
            download: DownloadConfig {
                default_format: owned("mp4"),
                default_quality: owned("1080p"),
                output_dir: owned(output_dir),
                parallel: 4,
                embed_metadata: true,
                embed_thumbnail: true,
                embed_subtitles: false,
                timeout: 300,
                max_retries: 3,
            },
            spotify: None,
        }
    }

    /// The defaults (see [`default_view`]) for a user whose download folder
    /// is `download` and whose home is `home`: downloading into the download
    /// folder, else `Downloads` in the home directory, else `.`.
    pub fn default_in(download: Option<&str>, home: Option<&str>) -> (c: AppConfig)
        ensures
            c@ == default_view(c@.output_dir),
            is_default_download_dir(opt_str_view(download), opt_str_view(home), None, c@.output_dir),
    {
        let dir = default_download_dir_in(download, home, None);
        AppConfig::with_output_dir(dir.as_str())
    }

    /// The path of the configuration file, `config.toml` in this user's
    /// configuration directory; none when the platform has no such
    /// directory.
    ///
    /// Whether there is such a directory, and where, is read from the
    /// environment; [`config_path_in`] states the path for a given one.
    pub fn config_path() -> Option<String> {
        let dir = config_dir();
        match &dir {
            Some(d) => config_path_in(Some(d.as_str())),
            None => None,
        }
    }

    /// The value of the setting under `key`, as text; `None` for an unknown key.
    pub fn get(&self, key: &str) -> (r: Option<String>)
        ensures
            r matches Some(v) ==> config_get(self@, key@) == Some(v@),
            r is None ==> config_get(self@, key@) is None,
    {
        if str_eq(key, "yt_dlp.auto_update") {
            Some(bool_to_string(self.yt_dlp.auto_update))
        } else if str_eq(key, "yt_dlp.channel") {
            Some(owned(self.yt_dlp.channel.as_str()))
        } else if str_eq(key, "ffmpeg.auto_update") {
            Some(bool_to_string(self.ffmpeg.auto_update))
        } else if str_eq(key, "download.default_format") {
            Some(owned(self.download.default_format.as_str()))
        } else if str_eq(key, "download.default_quality") {
            Some(owned(self.download.default_quality.as_str()))
        } else if str_eq(key, "download.output_dir") {
            Some(owned(self.download.output_dir.as_str()))
        } else if str_eq(key, "download.parallel") {
            Some(u64_to_string(self.download.parallel as u64))
        } else if str_eq(key, "download.embed_metadata") {
            Some(bool_to_string(self.download.embed_metadata))
        } else if str_eq(key, "download.embed_thumbnail") {
            Some(bool_to_string(self.download.embed_thumbnail))
        } else if str_eq(key, "download.embed_subtitles") {
            Some(bool_to_string(self.download.embed_subtitles))
        } else if str_eq(key, "download.timeout") {
            Some(u64_to_string(self.download.timeout))
        } else if str_eq(key, "download.max_retries") {
            Some(u64_to_string(self.download.max_retries as u64))
        } else {
            None
        }
    }

    /// Sets the setting under `key` from the text `value`.
    ///
    /// Booleans take exactly `true` or `false`, numbers take decimal digits
    /// after an optional `+` within the range of the setting, and the other
    /// settings take any text. An unknown key, or a value that does not read
    /// as the key's type, is a `ConfigError` and leaves the configuration as
    /// it was. Writing the configuration to disk is the caller's part.
    pub fn set(&mut self, key: &str, value: &str) -> (r: Result<(), SourisError>)
        ensures
            r is Ok <==> config_set(old(self)@, key@, value@) is Some,
            r is Ok ==> final(self)@ == config_set(old(self)@, key@, value@).unwrap(),
            r is Err ==> final(self)@ == old(self)@,
            r matches Err(e) ==> (e matches SourisError::ConfigError(m) && m@ == config_set_error(key@, value@)),
    {
        let ghost c = self@;
        if str_eq(key, "yt_dlp.auto_update") {
            match parse_bool_text(value) {
                Some(b) => { self.yt_dlp.auto_update = b; },
                None => { return Err(SourisError::ConfigError(concat2("Invalid boolean: ", value))); },
            }
        } else if str_eq(key, "yt_dlp.channel") {
            self.yt_dlp.channel = owned(value);
        } else if str_eq(key, "ffmpeg.auto_update") {
            match parse_bool_text(value) {
                Some(b) => { self.ffmpeg.auto_update = b; },
                None => { return Err(SourisError::ConfigError(concat2("Invalid boolean: ", value))); },
            }
        } else if str_eq(key, "download.default_format") {
            self.download.default_format = owned(value);
        } else if str_eq(key, "download.default_quality") {
            self.download.default_quality = owned(value);
        } else if str_eq(key, "download.output_dir") {
            self.download.output_dir = owned(value);
        } else if str_eq(key, "download.parallel") {
            match parse_unsigned_bounded(value, usize::MAX as u64) {
                Some(n) => { self.download.parallel = n as usize; },
                None => {
                    proof {
                        reveal_strlit("download.parallel");
                        assert("download.parallel"@.len() == 17);
                        reveal_strlit("yt_dlp.auto_update");
                        assert("yt_dlp.auto_update"@.len() == 18);
                        reveal_strlit("ffmpeg.auto_update");
                        assert("ffmpeg.auto_update"@.len() == 18);
                        reveal_strlit("download.embed_metadata");
                        assert("download.embed_metadata"@.len() == 23);
                        reveal_strlit("download.embed_thumbnail");
                        assert("download.embed_thumbnail"@.len() == 24);
                        reveal_strlit("download.embed_subtitles");
                        assert("download.embed_subtitles"@.len() == 24);
                        assert(!is_bool_key(key@));
                    }
                    return Err(SourisError::ConfigError(concat2("Invalid number: ", value)));
                },
            }
        } else if str_eq(key, "download.embed_metadata") {
            match parse_bool_text(value) {
                Some(b) => { self.download.embed_metadata = b; },
                None => { return Err(SourisError::ConfigError(concat2("Invalid boolean: ", value))); },
            }
        } else if str_eq(key, "download.embed_thumbnail") {
            match parse_bool_text(value) {
                Some(b) => { self.download.embed_thumbnail = b; },
                None => { return Err(SourisError::ConfigError(concat2("Invalid boolean: ", value))); },
            }
        } else if str_eq(key, "download.embed_subtitles") {
            match parse_bool_text(value) {
                Some(b) => { self.download.embed_subtitles = b; },
                None => { return Err(SourisError::ConfigError(concat2("Invalid boolean: ", value))); },
            }
        } else if str_eq(key, "download.timeout") {
            match parse_unsigned_bounded(value, u64::MAX) {
                Some(n) => { self.download.timeout = n; },
                None => { return Err(SourisError::ConfigError(concat2("Invalid number: ", value))); },
            }
        } else if str_eq(key, "download.max_retries") {
            match parse_unsigned_bounded(value, u32::MAX as u64) {
                Some(n) => { self.download.max_retries = n as u32; },
                None => { return Err(SourisError::ConfigError(concat2("Invalid number: ", value))); },
            }
        } else {
            return Err(SourisError::ConfigError(concat2("Unknown key: ", key)));
        }
        assert(self@ =~= config_set(c, key@, value@).unwrap());
        Ok(())
    }
}

/// The keys are pairwise different texts (a fact about literals that the
/// laws below rest on).
proof fn lemma_key_texts()
    ensures
        "yt_dlp.auto_update"@ != "ffmpeg.auto_update"@,
        "download.default_format"@ != "download.embed_metadata"@,
        "download.default_quality"@ != "download.embed_thumbnail"@,
        "download.default_quality"@ != "download.embed_subtitles"@,
        "download.embed_thumbnail"@ != "download.embed_subtitles"@,
        "true"@ != "false"@,
        "yt_dlp.auto_update"@.len() == 18,
        "ffmpeg.auto_update"@.len() == 18,
        "yt_dlp.channel"@.len() == 14,
        "download.default_format"@.len() == 23,
        "download.default_quality"@.len() == 24,
        "download.output_dir"@.len() == 19,
        "download.parallel"@.len() == 17,
        "download.embed_metadata"@.len() == 23,
        "download.embed_thumbnail"@.len() == 24,
        "download.embed_subtitles"@.len() == 24,
        "download.timeout"@.len() == 16,
        "download.max_retries"@.len() == 20,
{
    reveal_strlit("yt_dlp.auto_update");
    assert("yt_dlp.auto_update"@.len() == 18 && "yt_dlp.auto_update"@[0] == 'y' && "yt_dlp.auto_update"@[1] == 't' && "yt_dlp.auto_update"@[2] == '_' && "yt_dlp.auto_update"@[3] == 'd' && "yt_dlp.auto_update"@[4] == 'l' && "yt_dlp.auto_update"@[5] == 'p' && "yt_dlp.auto_update"@[6] == '.' && "yt_dlp.auto_update"@[7] == 'a' && "yt_dlp.auto_update"@[8] == 'u' && "yt_dlp.auto_update"@[9] == 't' && "yt_dlp.auto_update"@[10] == 'o' && "yt_dlp.auto_update"@[11] == '_' && "yt_dlp.auto_update"@[12] == 'u' && "yt_dlp.auto_update"@[13] == 'p' && "yt_dlp.auto_update"@[14] == 'd' && "yt_dlp.auto_update"@[15] == 'a' && "yt_dlp.auto_update"@[16] == 't' && "yt_dlp.auto_update"@[17] == 'e');
    reveal_strlit("yt_dlp.channel");
    assert("yt_dlp.channel"@.len() == 14 && "yt_dlp.channel"@[0] == 'y' && "yt_dlp.channel"@[1] == 't' && "yt_dlp.channel"@[2] == '_' && "yt_dlp.channel"@[3] == 'd' && "yt_dlp.channel"@[4] == 'l' && "yt_dlp.channel"@[5] == 'p' && "yt_dlp.channel"@[6] == '.' && "yt_dlp.channel"@[7] == 'c' && "yt_dlp.channel"@[8] == 'h' && "yt_dlp.channel"@[9] == 'a' && "yt_dlp.channel"@[10] == 'n' && "yt_dlp.channel"@[11] == 'n' && "yt_dlp.channel"@[12] == 'e' && "yt_dlp.channel"@[13] == 'l');
    reveal_strlit("ffmpeg.auto_update");
    assert("ffmpeg.auto_update"@.len() == 18 && "ffmpeg.auto_update"@[0] == 'f' && "ffmpeg.auto_update"@[1] == 'f' && "ffmpeg.auto_update"@[2] == 'm' && "ffmpeg.auto_update"@[3] == 'p' && "ffmpeg.auto_update"@[4] == 'e' && "ffmpeg.auto_update"@[5] == 'g' && "ffmpeg.auto_update"@[6] == '.' && "ffmpeg.auto_update"@[7] == 'a' && "ffmpeg.auto_update"@[8] == 'u' && "ffmpeg.auto_update"@[9] == 't' && "ffmpeg.auto_update"@[10] == 'o' && "ffmpeg.auto_update"@[11] == '_' && "ffmpeg.auto_update"@[12] == 'u' && "ffmpeg.auto_update"@[13] == 'p' && "ffmpeg.auto_update"@[14] == 'd' && "ffmpeg.auto_update"@[15] == 'a' && "ffmpeg.auto_update"@[16] == 't' && "ffmpeg.auto_update"@[17] == 'e');
    reveal_strlit("download.default_format");
    assert("download.default_format"@.len() == 23 && "download.default_format"@[0] == 'd' && "download.default_format"@[1] == 'o' && "download.default_format"@[2] == 'w' && "download.default_format"@[3] == 'n' && "download.default_format"@[4] == 'l' && "download.default_format"@[5] == 'o' && "download.default_format"@[6] == 'a' && "download.default_format"@[7] == 'd' && "download.default_format"@[8] == '.' && "download.default_format"@[9] == 'd' && "download.default_format"@[10] == 'e' && "download.default_format"@[11] == 'f' && "download.default_format"@[12] == 'a' && "download.default_format"@[13] == 'u' && "download.default_format"@[14] == 'l' && "download.default_format"@[15] == 't' && "download.default_format"@[16] == '_' && "download.default_format"@[17] == 'f' && "download.default_format"@[18] == 'o' && "download.default_format"@[19] == 'r' && "download.default_format"@[20] == 'm' && "download.default_format"@[21] == 'a' && "download.default_format"@[22] == 't');
    reveal_strlit("download.default_quality");
    assert("download.default_quality"@.len() == 24 && "download.default_quality"@[0] == 'd' && "download.default_quality"@[1] == 'o' && "download.default_quality"@[2] == 'w' && "download.default_quality"@[3] == 'n' && "download.default_quality"@[4] == 'l' && "download.default_quality"@[5] == 'o' && "download.default_quality"@[6] == 'a' && "download.default_quality"@[7] == 'd' && "download.default_quality"@[8] == '.' && "download.default_quality"@[9] == 'd' && "download.default_quality"@[10] == 'e' && "download.default_quality"@[11] == 'f' && "download.default_quality"@[12] == 'a' && "download.default_quality"@[13] == 'u' && "download.default_quality"@[14] == 'l' && "download.default_quality"@[15] == 't' && "download.default_quality"@[16] == '_' && "download.default_quality"@[17] == 'q' && "download.default_quality"@[18] == 'u' && "download.default_quality"@[19] == 'a' && "download.default_quality"@[20] == 'l' && "download.default_quality"@[21] == 'i' && "download.default_quality"@[22] == 't' && "download.default_quality"@[23] == 'y');
    reveal_strlit("download.output_dir");
    assert("download.output_dir"@.len() == 19 && "download.output_dir"@[0] == 'd' && "download.output_dir"@[1] == 'o' && "download.output_dir"@[2] == 'w' && "download.output_dir"@[3] == 'n' && "download.output_dir"@[4] == 'l' && "download.output_dir"@[5] == 'o' && "download.output_dir"@[6] == 'a' && "download.output_dir"@[7] == 'd' && "download.output_dir"@[8] == '.' && "download.output_dir"@[9] == 'o' && "download.output_dir"@[10] == 'u' && "download.output_dir"@[11] == 't' && "download.output_dir"@[12] == 'p' && "download.output_dir"@[13] == 'u' && "download.output_dir"@[14] == 't' && "download.output_dir"@[15] == '_' && "download.output_dir"@[16] == 'd' && "download.output_dir"@[17] == 'i' && "download.output_dir"@[18] == 'r');
    reveal_strlit("download.parallel");
    assert("download.parallel"@.len() == 17 && "download.parallel"@[0] == 'd' && "download.parallel"@[1] == 'o' && "download.parallel"@[2] == 'w' && "download.parallel"@[3] == 'n' && "download.parallel"@[4] == 'l' && "download.parallel"@[5] == 'o' && "download.parallel"@[6] == 'a' && "download.parallel"@[7] == 'd' && "download.parallel"@[8] == '.' && "download.parallel"@[9] == 'p' && "download.parallel"@[10] == 'a' && "download.parallel"@[11] == 'r' && "download.parallel"@[12] == 'a' && "download.parallel"@[13] == 'l' && "download.parallel"@[14] == 'l' && "download.parallel"@[15] == 'e' && "download.parallel"@[16] == 'l');
    reveal_strlit("download.embed_metadata");
    assert("download.embed_metadata"@.len() == 23 && "download.embed_metadata"@[0] == 'd' && "download.embed_metadata"@[1] == 'o' && "download.embed_metadata"@[2] == 'w' && "download.embed_metadata"@[3] == 'n' && "download.embed_metadata"@[4] == 'l' && "download.embed_metadata"@[5] == 'o' && "download.embed_metadata"@[6] == 'a' && "download.embed_metadata"@[7] == 'd' && "download.embed_metadata"@[8] == '.' && "download.embed_metadata"@[9] == 'e' && "download.embed_metadata"@[10] == 'm' && "download.embed_metadata"@[11] == 'b' && "download.embed_metadata"@[12] == 'e' && "download.embed_metadata"@[13] == 'd' && "download.embed_metadata"@[14] == '_' && "download.embed_metadata"@[15] == 'm' && "download.embed_metadata"@[16] == 'e' && "download.embed_metadata"@[17] == 't' && "download.embed_metadata"@[18] == 'a' && "download.embed_metadata"@[19] == 'd' && "download.embed_metadata"@[20] == 'a' && "download.embed_metadata"@[21] == 't' && "download.embed_metadata"@[22] == 'a');
    reveal_strlit("download.embed_thumbnail");
    assert("download.embed_thumbnail"@.len() == 24 && "download.embed_thumbnail"@[0] == 'd' && "download.embed_thumbnail"@[1] == 'o' && "download.embed_thumbnail"@[2] == 'w' && "download.embed_thumbnail"@[3] == 'n' && "download.embed_thumbnail"@[4] == 'l' && "download.embed_thumbnail"@[5] == 'o' && "download.embed_thumbnail"@[6] == 'a' && "download.embed_thumbnail"@[7] == 'd' && "download.embed_thumbnail"@[8] == '.' && "download.embed_thumbnail"@[9] == 'e' && "download.embed_thumbnail"@[10] == 'm' && "download.embed_thumbnail"@[11] == 'b' && "download.embed_thumbnail"@[12] == 'e' && "download.embed_thumbnail"@[13] == 'd' && "download.embed_thumbnail"@[14] == '_' && "download.embed_thumbnail"@[15] == 't' && "download.embed_thumbnail"@[16] == 'h' && "download.embed_thumbnail"@[17] == 'u' && "download.embed_thumbnail"@[18] == 'm' && "download.embed_thumbnail"@[19] == 'b' && "download.embed_thumbnail"@[20] == 'n' && "download.embed_thumbnail"@[21] == 'a' && "download.embed_thumbnail"@[22] == 'i' && "download.embed_thumbnail"@[23] == 'l');
    reveal_strlit("download.embed_subtitles");
    assert("download.embed_subtitles"@.len() == 24 && "download.embed_subtitles"@[0] == 'd' && "download.embed_subtitles"@[1] == 'o' && "download.embed_subtitles"@[2] == 'w' && "download.embed_subtitles"@[3] == 'n' && "download.embed_subtitles"@[4] == 'l' && "download.embed_subtitles"@[5] == 'o' && "download.embed_subtitles"@[6] == 'a' && "download.embed_subtitles"@[7] == 'd' && "download.embed_subtitles"@[8] == '.' && "download.embed_subtitles"@[9] == 'e' && "download.embed_subtitles"@[10] == 'm' && "download.embed_subtitles"@[11] == 'b' && "download.embed_subtitles"@[12] == 'e' && "download.embed_subtitles"@[13] == 'd' && "download.embed_subtitles"@[14] == '_' && "download.embed_subtitles"@[15] == 's' && "download.embed_subtitles"@[16] == 'u' && "download.embed_subtitles"@[17] == 'b' && "download.embed_subtitles"@[18] == 't' && "download.embed_subtitles"@[19] == 'i' && "download.embed_subtitles"@[20] == 't' && "download.embed_subtitles"@[21] == 'l' && "download.embed_subtitles"@[22] == 'e' && "download.embed_subtitles"@[23] == 's');
    reveal_strlit("download.timeout");
    assert("download.timeout"@.len() == 16 && "download.timeout"@[0] == 'd' && "download.timeout"@[1] == 'o' && "download.timeout"@[2] == 'w' && "download.timeout"@[3] == 'n' && "download.timeout"@[4] == 'l' && "download.timeout"@[5] == 'o' && "download.timeout"@[6] == 'a' && "download.timeout"@[7] == 'd' && "download.timeout"@[8] == '.' && "download.timeout"@[9] == 't' && "download.timeout"@[10] == 'i' && "download.timeout"@[11] == 'm' && "download.timeout"@[12] == 'e' && "download.timeout"@[13] == 'o' && "download.timeout"@[14] == 'u' && "download.timeout"@[15] == 't');
    reveal_strlit("download.max_retries");
    assert("download.max_retries"@.len() == 20 && "download.max_retries"@[0] == 'd' && "download.max_retries"@[1] == 'o' && "download.max_retries"@[2] == 'w' && "download.max_retries"@[3] == 'n' && "download.max_retries"@[4] == 'l' && "download.max_retries"@[5] == 'o' && "download.max_retries"@[6] == 'a' && "download.max_retries"@[7] == 'd' && "download.max_retries"@[8] == '.' && "download.max_retries"@[9] == 'm' && "download.max_retries"@[10] == 'a' && "download.max_retries"@[11] == 'x' && "download.max_retries"@[12] == '_' && "download.max_retries"@[13] == 'r' && "download.max_retries"@[14] == 'e' && "download.max_retries"@[15] == 't' && "download.max_retries"@[16] == 'r' && "download.max_retries"@[17] == 'i' && "download.max_retries"@[18] == 'e' && "download.max_retries"@[19] == 's');
    reveal_strlit("true");
    assert("true"@.len() == 4 && "true"@[0] == 't' && "true"@[1] == 'r' && "true"@[2] == 'u' && "true"@[3] == 'e');
    reveal_strlit("false");
    assert("false"@.len() == 5 && "false"@[0] == 'f' && "false"@[1] == 'a' && "false"@[2] == 'l' && "false"@[3] == 's' && "false"@[4] == 'e');
}

/// Exactly the known keys can be read.
pub proof fn law_readable_keys(c: ConfigView, k: Seq<char>)
    ensures
        config_get(c, k) is Some <==> is_known_key(k),
{
}

/// A key that cannot be read cannot be set, whatever the value.
pub proof fn law_unknown_key_refused(c: ConfigView, k: Seq<char>, v: Seq<char>)
    requires
        config_get(c, k) is None,
    ensures
        config_set(c, k, v) is None,
{
}

/// Free-text settings take any value.
pub proof fn law_text_keys_take_any_value(c: ConfigView, k: Seq<char>, v: Seq<char>)
    requires
        is_text_key(k),
    ensures
        config_set(c, k, v) is Some,
{
    lemma_key_texts();
}

/// Reading a key right after setting it gives the value that was set;
/// numbers read back in plain decimal (so `+8` reads back as `8`).
pub proof fn law_get_after_set(c: ConfigView, k: Seq<char>, v: Seq<char>)
    requires
        config_set(c, k, v) is Some,
    ensures
        config_get(config_set(c, k, v).unwrap(), k) == Some(canonical_value(k, v)),
{
    lemma_key_texts();
}

/// Setting one key leaves every other key as it was.
pub proof fn law_set_keeps_other_keys(c: ConfigView, k: Seq<char>, v: Seq<char>, other: Seq<char>)
    requires
        config_set(c, k, v) is Some,
        other != k,
    ensures
        config_get(config_set(c, k, v).unwrap(), other) == config_get(c, other),
{
}

/// Setting a key to the text it currently reads as changes nothing.
pub proof fn law_set_current_value_is_identity(cfg: AppConfig, k: Seq<char>)
    requires
        config_get(cfg@, k) is Some,
    ensures
        config_set(cfg@, k, config_get(cfg@, k).unwrap()) == Some(cfg@),
{
    lemma_key_texts();
    let c = cfg@;
    if k == "download.parallel"@ {
        lemma_parse_decimal(c.parallel, usize::MAX as nat);
        assert(config_set(c, k, config_get(c, k).unwrap()).unwrap() =~= c);
    } else if k == "download.timeout"@ {
        lemma_parse_decimal(c.timeout, u64::MAX as nat);
        assert(config_set(c, k, config_get(c, k).unwrap()).unwrap() =~= c);
    } else if k == "download.max_retries"@ {
        lemma_parse_decimal(c.max_retries, u32::MAX as nat);
        assert(config_set(c, k, config_get(c, k).unwrap()).unwrap() =~= c);
    } else {
        assert(config_set(c, k, config_get(c, k).unwrap()).unwrap() =~= c);
    }
}


/// Each key reads its own setting: the text of exactly the field it names.
pub proof fn law_keys_read_their_fields(c: ConfigView)
    ensures
        config_get(c, "yt_dlp.auto_update"@) == Some(bool_text(c.yt_dlp_auto_update)),
        config_get(c, "yt_dlp.channel"@) == Some(c.yt_dlp_channel),
        config_get(c, "ffmpeg.auto_update"@) == Some(bool_text(c.ffmpeg_auto_update)),
        config_get(c, "download.default_format"@) == Some(c.default_format),
        config_get(c, "download.default_quality"@) == Some(c.default_quality),
        config_get(c, "download.output_dir"@) == Some(c.output_dir),
        config_get(c, "download.parallel"@) == Some(decimal(c.parallel)),
        config_get(c, "download.embed_metadata"@) == Some(bool_text(c.embed_metadata)),
        config_get(c, "download.embed_thumbnail"@) == Some(bool_text(c.embed_thumbnail)),
        config_get(c, "download.embed_subtitles"@) == Some(bool_text(c.embed_subtitles)),
        config_get(c, "download.timeout"@) == Some(decimal(c.timeout)),
        config_get(c, "download.max_retries"@) == Some(decimal(c.max_retries)),
{
    lemma_key_texts();
}

/// Setting a boolean key to the text of `b` sets exactly the field that
/// key names to `b`; every other field keeps its value.
pub proof fn law_bool_keys_set_their_fields(c: ConfigView, b: bool)
    ensures
        config_set(c, "yt_dlp.auto_update"@, bool_text(b)) == Some(ConfigView { yt_dlp_auto_update: b, ..c }),
        config_set(c, "ffmpeg.auto_update"@, bool_text(b)) == Some(ConfigView { ffmpeg_auto_update: b, ..c }),
        config_set(c, "download.embed_metadata"@, bool_text(b)) == Some(ConfigView { embed_metadata: b, ..c }),
        config_set(c, "download.embed_thumbnail"@, bool_text(b)) == Some(ConfigView { embed_thumbnail: b, ..c }),
        config_set(c, "download.embed_subtitles"@, bool_text(b)) == Some(ConfigView { embed_subtitles: b, ..c }),
{
    lemma_key_texts();
}

/// Setting a text key sets exactly the field that key names to the text;
/// every other field keeps its value.
pub proof fn law_text_keys_set_their_fields(c: ConfigView, t: Seq<char>)
    ensures
        config_set(c, "yt_dlp.channel"@, t) == Some(ConfigView { yt_dlp_channel: t, ..c }),
        config_set(c, "download.default_format"@, t) == Some(ConfigView { default_format: t, ..c }),
        config_set(c, "download.default_quality"@, t) == Some(ConfigView { default_quality: t, ..c }),
        config_set(c, "download.output_dir"@, t) == Some(ConfigView { output_dir: t, ..c }),
{
    lemma_key_texts();
}

/// Setting a number key to the decimal text of `n` sets exactly the field
/// that key names to `n`; every other field keeps its value.
pub proof fn law_number_keys_set_their_fields(c: ConfigView, n: nat)
    requires
        n <= u32::MAX,
    ensures
        config_set(c, "download.parallel"@, decimal(n)) == Some(ConfigView { parallel: n, ..c }),
        config_set(c, "download.timeout"@, decimal(n)) == Some(ConfigView { timeout: n, ..c }),
        config_set(c, "download.max_retries"@, decimal(n)) == Some(ConfigView { max_retries: n, ..c }),
{
    lemma_key_texts();
    lemma_parse_decimal(n, usize::MAX as nat);
    lemma_parse_decimal(n, u64::MAX as nat);
    lemma_parse_decimal(n, u32::MAX as nat);
}

} // verus!
