use souris_dw::utils::fs;
use souris_dw::utils::paths::is_legacy_download_dir_in;

#[test]
fn test_join_paths_uses_platform_separators() {
    let base = std::path::Path::new("downloads");
    let joined = fs::join_paths("downloads", "artist/album/song.mp3");

    assert_eq!(
        std::path::PathBuf::from(joined),
        base.join("artist").join("album").join("song.mp3")
    );
}

#[test]
fn test_sanitize_filename_removes_windows_reserved_chars() {
    let sanitized = fs::sanitize_filename("bad:name?.mp3");

    assert!(!sanitized.contains(':'));
    assert!(!sanitized.contains('?'));
}

#[test]
fn test_legacy_download_dirs_are_detected() {
    assert!(souris_dw::utils::paths::is_legacy_default_download_dir("./downloads"));
    assert!(souris_dw::utils::paths::is_legacy_default_download_dir("downloads"));
}

#[test]
fn legacy_dir_under_data_dir() {
    assert!(is_legacy_download_dir_in("/data/app/downloads", Some("/data/app")));
    assert!(is_legacy_download_dir_in("/data/app/./x/../downloads", Some("/data/app")));
    assert!(!is_legacy_download_dir_in("/home/me/Downloads", Some("/data/app")));
    assert!(!is_legacy_download_dir_in("/data/app/downloads", None));
}

#[test]
fn file_name_parts() {
    assert_eq!(fs::file_name_without_ext("song.mp3").as_deref(), Some("song"));
    assert_eq!(fs::file_name_without_ext("a.b.c").as_deref(), Some("a.b"));
    assert_eq!(fs::file_name_without_ext(".bashrc").as_deref(), Some(".bashrc"));
    assert_eq!(fs::extension("song.mp3").as_deref(), Some("mp3"));
    assert_eq!(fs::extension("noext"), None);
    assert_eq!(fs::extension(".bashrc"), None);
    assert_eq!(fs::extension("trail."), Some(String::new()));
}

#[test]
fn normalize_and_sanitize() {
    assert_eq!(fs::normalize_path("song"), "song");
    assert_eq!(fs::normalize_path(""), ".");
    assert_eq!(fs::normalize_path("/a/./b/../c"), "/a/c");
    assert_eq!(fs::sanitize_filename("a<b>c|d\"e*f\u{1}g"), "abcdefg");
}

#[test]
fn sanitize_keeps_plain_names() {
    assert_eq!(fs::sanitize_filename("My Song - Live_2024.mp3"), "My Song - Live_2024.mp3");
    assert_eq!(fs::sanitize_filename(".hidden"), ".hidden");
    assert_eq!(fs::sanitize_filename("console.log"), "console.log");
}

#[test]
fn legacy_dirs_need_a_downloads_component() {
    assert!(!is_legacy_download_dir_in("mydownloads", Some("/data/app")));
    assert!(!is_legacy_download_dir_in("/data/app/downloads2", Some("/data/app")));
    assert!(!is_legacy_download_dir_in("/other/downloads", Some("/data/app")));
    assert!(is_legacy_download_dir_in("downloads/", None));
}

#[test]
fn default_download_dir_prefers_the_download_folder() {
    assert_eq!(souris_dw::utils::paths::default_download_dir_in(Some("/home/a/Dl"), Some("/home/a"), Some("/w")), "/home/a/Dl");
    assert_eq!(souris_dw::utils::paths::default_download_dir_in(None, Some("/home/a"), Some("/w")), "/home/a/Downloads");
    assert_eq!(souris_dw::utils::paths::default_download_dir_in(None, None, Some("/w")), "/w");
    assert_eq!(souris_dw::utils::paths::default_download_dir_in(None, None, None), ".");
}

#[test]
fn test_default_download_dir_is_not_relative_downloads() {
    let dir = souris_dw::default_download_dir();

    assert_ne!(std::path::PathBuf::from(&dir), std::path::PathBuf::from("./downloads"));
    assert_ne!(std::path::PathBuf::from(&dir), std::path::PathBuf::from("downloads"));
}

#[test]
fn stems_and_extensions_after_a_directory() {
    assert_eq!(fs::file_name_without_ext("/music/song.mp3").as_deref(), Some("song"));
    assert_eq!(fs::file_name_without_ext("/music/archive.tar.gz").as_deref(), Some("archive.tar"));
    assert_eq!(fs::file_name_without_ext("/"), None);
    assert_eq!(fs::extension("/music/archive.tar.gz").as_deref(), Some("gz"));
    assert_eq!(fs::extension("music/.hidden"), None);
    assert_eq!(fs::extension("/"), None);
}

#[test]
fn joins_insert_one_separator_each() {
    let sep = std::path::MAIN_SEPARATOR;
    assert_eq!(fs::join_paths("downloads", "a/b"), format!("downloads{}a{}b", sep, sep));
    assert_eq!(fs::join_paths("downloads", ""), format!("downloads{}", sep));
}

#[test]
fn sanitize_drops_illegal_characters_from_plain_names() {
    assert_eq!(fs::sanitize_filename("bad:name?.mp3"), "badname.mp3");
    assert_eq!(fs::sanitize_filename("a/b\\c*.txt"), "abc.txt");
    assert_eq!(fs::sanitize_filename("::"), "");
}
