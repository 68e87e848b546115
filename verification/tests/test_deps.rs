use souris_dw::deps::DepStatus;
use souris_dw::deps::{apply_latest, version_outdated, DepManager};
use souris_dw::deps::deno::Deno;
use souris_dw::deps::ffmpeg::FFmpeg;
use souris_dw::deps::yt_dlp::YtDlp;

#[test]
fn test_dep_status_default_fields() {
    let status = DepStatus {
        name: "test".into(),
        installed: true,
        version: Some("1.0".into()),
        path: "/usr/bin/test".into(),
        latest: None,
        update_available: false,
    };
    assert_eq!(status.name, "test");
    assert!(status.installed);
    assert_eq!(status.version.unwrap(), "1.0");
    assert_eq!(status.path, "/usr/bin/test");
}

#[test]
fn test_dep_status_not_installed() {
    let status = DepStatus {
        name: "missing".into(),
        installed: false,
        version: None,
        path: "/usr/bin/missing".into(),
        latest: None,
        update_available: false,
    };
    assert!(!status.installed);
    assert!(status.version.is_none());
}

#[test]
fn versions_compare_numerically() {
    assert!(version_outdated("1.2.3", "1.10.0"));
    assert!(!version_outdated("1.10.0", "1.2.3"));
    assert!(!version_outdated("v2.0", "2.0"));
    assert!(version_outdated("deno 2.1.4 (stable)", "v2.2.0"));
    assert!(!version_outdated("2.0", "2.0.0"));
    assert!(!version_outdated("7.0.2-static", "b6.1.1"));
    assert!(!version_outdated("2025.01.15", "2025.01.15"));
    assert!(version_outdated("1.2.3.4.5", "1.2.3.4.6"));
}

#[test]
fn latest_release_sets_update_flag() {
    let mut d = DepStatus {
        name: "deno".into(),
        installed: true,
        version: Some(" 2.1.0 ".into()),
        path: "/bin/deno".into(),
        latest: None,
        update_available: false,
    };
    apply_latest(&mut d, Some("v2.3.1".to_string()));
    assert_eq!(d.latest.as_deref(), Some("v2.3.1"));
    assert!(d.update_available);
    let mut unknown = DepStatus { version: None, ..d.clone() };
    apply_latest(&mut unknown, Some("9.9".to_string()));
    assert!(!unknown.update_available);
    let mut same = d.clone();
    apply_latest(&mut same, None);
    assert_eq!(same.latest.as_deref(), Some("v2.3.1"));
}

fn manager() -> DepManager {
    DepManager::new(
        YtDlp::new("/nonexistent/yt-dlp", Some("2024.01.01"), "stable", None),
        FFmpeg::new("/nonexistent/ffmpeg", "/nonexistent/ffprobe", Some("6.0")),
        Deno::new("/nonexistent/deno", None),
        true,
    )
}

#[test]
fn status_lists_three_dependencies() {
    let s = manager().status();
    let names: Vec<&str> = s.iter().map(|d| d.name.as_str()).collect();
    assert_eq!(names, vec!["yt-dlp", "ffmpeg", "deno"]);
    assert_eq!(s[0].version.as_deref(), Some("2024.01.01"));
    assert!(!s[1].installed);
    let checked = manager().status_with_latest(Some("2024.02.01".into()), Some("6.0".into()), None);
    assert!(checked[0].update_available);
    assert!(!checked[1].update_available);
    assert!(checked[2].latest.is_none());
}

#[test]
fn update_report_lists_asked_dependencies() {
    let m = manager();
    let report = m.update_report(
        Some(None),
        None,
        Some(Some(Deno::new("/bin/deno", Some("deno 2.4.0")))),
    );
    assert_eq!(report.len(), 2);
    assert_eq!(report[0].name, "yt-dlp");
    assert!(report[0].installed);
    assert_eq!(report[0].path, "/nonexistent/yt-dlp");
    assert_eq!(report[1].name, "deno");
    assert_eq!(report[1].path, "/bin/deno");
    assert_eq!(report[1].version.as_deref(), Some("deno 2.4.0"));
    assert!(report[1].installed);
}
