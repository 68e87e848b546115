use souris_dw::config::AppConfig;

#[test]
fn test_default_config() {
    let config = AppConfig::default();
    assert_eq!(config.download.default_format, "mp4");
    assert_eq!(config.download.default_quality, "1080p");
    assert_eq!(config.download.parallel, 4);
    assert!(config.download.embed_metadata);
    assert!(config.download.embed_thumbnail);
    assert!(!config.download.embed_subtitles);
    assert_eq!(config.download.timeout, 300);
    assert_eq!(config.download.max_retries, 3);
}

#[test]
fn test_config_get_known_keys() {
    let config = AppConfig::default();

    assert_eq!(config.get("download.default_format"), Some("mp4".to_string()));
    assert_eq!(config.get("download.default_quality"), Some("1080p".to_string()));
    assert_eq!(config.get("download.parallel"), Some("4".to_string()));
    assert_eq!(config.get("download.embed_metadata"), Some("true".to_string()));
    assert_eq!(config.get("yt_dlp.auto_update"), Some("true".to_string()));
    assert_eq!(config.get("yt_dlp.channel"), Some("nightly".to_string()));
}

#[test]
fn test_config_get_unknown_key() {
    let config = AppConfig::default();
    assert_eq!(config.get("nonexistent.key"), None);
}

#[test]
fn test_config_set_and_get() {
    let mut config = AppConfig::default();

    config.set("download.default_format", "mp3").unwrap();
    assert_eq!(config.get("download.default_format"), Some("mp3".to_string()));

    config.set("download.default_quality", "320").unwrap();
    assert_eq!(config.get("download.default_quality"), Some("320".to_string()));

    config.set("download.parallel", "8").unwrap();
    assert_eq!(config.get("download.parallel"), Some("8".to_string()));
}

#[test]
fn test_config_set_invalid_boolean() {
    let mut config = AppConfig::default();
    let result = config.set("download.embed_metadata", "notabool");
    assert!(result.is_err());
}

#[test]
fn test_config_set_invalid_number() {
    let mut config = AppConfig::default();
    let result = config.set("download.parallel", "notanumber");
    assert!(result.is_err());
}

#[test]
fn test_config_set_unknown_key() {
    let mut config = AppConfig::default();
    let result = config.set("unknown.key", "value");
    assert!(result.is_err());
}

#[test]
fn default_output_dir_is_the_download_folder() {
    let config = AppConfig::default_in(Some("/home/me/Téléchargements"), Some("/home/me"));
    assert_eq!(config.download.output_dir, "/home/me/Téléchargements");
    let config = AppConfig::default_in(None, Some("/home/me"));
    assert_eq!(config.download.output_dir, std::path::Path::new("/home/me").join("Downloads").to_string_lossy());
    assert_eq!(config.download.output_dir, "/home/me/Downloads");
    let config = AppConfig::default_in(None, None);
    assert_eq!(config.download.output_dir, ".");
}

#[test]
fn default_config_leaves_ffmpeg_updates_off() {
    let config = AppConfig::default_in(None, None);
    assert_eq!(config.get("ffmpeg.auto_update"), Some("false".to_string()));
    assert_eq!(config.get("yt_dlp.auto_update"), Some("true".to_string()));
    assert!(!AppConfig::default().ffmpeg.auto_update);
}

#[test]
fn config_path_is_config_toml_in_config_dir() {
    assert_eq!(souris_dw::config::config_path_in(Some("/cfg")), Some("/cfg/config.toml".to_string()));
    assert_eq!(souris_dw::config::config_path_in(None), None);
}

#[test]
fn set_refuses_value_and_keeps_config() {
    let mut config = AppConfig::default_in(None, None);
    let err = config.set("download.timeout", "-1").unwrap_err();
    assert_eq!(err.to_string(), "Config error: Invalid number: -1");
    assert_eq!(config.get("download.timeout"), Some("300".to_string()));
    let err = config.set("download.embed_thumbnail", "yes").unwrap_err();
    assert_eq!(err.to_string(), "Config error: Invalid boolean: yes");
    let err = config.set("nope", "1").unwrap_err();
    assert_eq!(err.to_string(), "Config error: Unknown key: nope");
    config.set("download.timeout", "+45").unwrap();
    assert_eq!(config.get("download.timeout"), Some("45".to_string()));
    config.set("download.output_dir", "/music").unwrap();
    assert_eq!(config.get("download.output_dir"), Some("/music".to_string()));
    assert_eq!(config.get("download.embed_subtitles"), Some("false".to_string()));
}
