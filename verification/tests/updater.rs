use qwen_studio::updater::{
    escape_notes, get_update_info, install_target, update_notice, DownloadProgress, UpdateCheck,
};

fn offer(v: &str, notes: Option<&str>) -> UpdateCheck {
    UpdateCheck::Available { version: v.to_string(), notes: notes.map(|n| n.to_string()) }
}

#[test]
fn notes_are_escaped_for_scripts() {
    assert_eq!(escape_notes(&Some("a\n\"b\"".to_string())), "a\\n\\\"b\\\"");
    assert_eq!(escape_notes(&None), "No release notes");
}

#[test]
fn manual_check_of_newer_release_shows_banner() {
    let n = update_notice(&offer("2.3.0", Some("Fixes\n\"quotes\"")), "2.2.3", true).unwrap();
    assert_eq!(n.version, "2.3.0");
    assert_eq!(n.notes, "Fixes\\n\\\"quotes\\\"");
}

#[test]
fn background_check_is_silent() {
    assert!(update_notice(&offer("2.3.0", None), "2.2.3", false).is_none());
}

#[test]
fn same_or_older_release_shows_no_banner() {
    assert!(update_notice(&offer("2.2.3", None), "2.2.3", true).is_none());
    assert!(update_notice(&offer("2.2.2", None), "2.2.3", true).is_none());
    assert!(update_notice(&UpdateCheck::UpToDate, "2.2.3", true).is_none());
    assert!(update_notice(&UpdateCheck::Failed("x".to_string()), "2.2.3", true).is_none());
}

#[test]
fn settings_tab_reports_newer_release() {
    let info = get_update_info(&offer("2.4.0", None), "2.2.3").unwrap();
    assert!(info.available);
    assert_eq!(info.current_version, "2.2.3");
    assert_eq!(info.latest_version, "2.4.0");
    assert_eq!(info.release_notes, "No release notes");
    let info = get_update_info(&offer("2.4.0", Some("line1\nline2")), "2.2.3").unwrap();
    assert_eq!(info.release_notes, "line1\nline2");
}

#[test]
fn settings_tab_reports_up_to_date() {
    let info = get_update_info(&UpdateCheck::UpToDate, "2.2.3").unwrap();
    assert!(!info.available);
    assert_eq!(info.current_version, "2.2.3");
    assert_eq!(info.latest_version, "2.2.3");
    assert_eq!(info.release_notes, "");
}

#[test]
fn settings_tab_reports_offer_that_is_not_newer() {
    let info = get_update_info(&offer("2.2.3", Some("n")), "2.2.3").unwrap();
    assert!(!info.available);
    assert_eq!(info.current_version, "2.2.3");
    assert_eq!(info.latest_version, "2.2.3");
    assert_eq!(info.release_notes, "n");
    let info = get_update_info(&offer("1.0.0", None), "2.2.3").unwrap();
    assert!(!info.available);
    assert_eq!(info.latest_version, "1.0.0");
    assert_eq!(info.release_notes, "No release notes");
}

#[test]
fn settings_tab_passes_errors_on() {
    let r = get_update_info(&UpdateCheck::Failed("network down".to_string()), "2.2.3");
    assert_eq!(r.err(), Some("network down".to_string()));
}

#[test]
fn install_only_of_newer_release() {
    assert_eq!(install_target(&offer("2.2.4", None), "2.2.3"), Ok("2.2.4".to_string()));
    assert_eq!(
        install_target(&offer("2.2.3", None), "2.2.3"),
        Err("No update available".to_string())
    );
    assert_eq!(
        install_target(&offer("2.0.0", None), "2.2.3"),
        Err("No update available".to_string())
    );
    assert_eq!(install_target(&UpdateCheck::UpToDate, "2.2.3"), Err("No update available".to_string()));
    assert_eq!(install_target(&UpdateCheck::Failed("e".to_string()), "2.2.3"), Err("e".to_string()));
}

#[test]
fn download_progress_keeps_first_announced_size() {
    let mut p = DownloadProgress::new();
    p.record_chunk(10, None);
    assert_eq!((p.downloaded, p.total), (10, 0));
    p.record_chunk(20, Some(100));
    assert_eq!((p.downloaded, p.total), (30, 100));
    p.record_chunk(5, Some(999));
    assert_eq!((p.downloaded, p.total), (35, 100));
}
