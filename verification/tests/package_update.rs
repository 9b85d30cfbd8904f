use qwen_studio::package_update::{
    check_for_updates, detect_install_type, first_probe, install_update, InstallPlan,
    InstallProbe, InstallType, ProbeStep,
};
use qwen_studio::updater::UpdateCheck;

#[test]
fn install_type_names() {
    assert_eq!(InstallType::AppImage.as_str(), "appimage");
    assert_eq!(InstallType::Deb.as_str(), "deb");
    assert_eq!(InstallType::Rpm.as_str(), "rpm");
    assert_eq!(InstallType::Unknown.as_str(), "unknown");
}

fn run_probes(appimage: bool, dpkg: bool, rpm: bool) -> (InstallType, usize) {
    let mut probe = first_probe();
    let mut count = 0;
    loop {
        count += 1;
        let ok = match probe {
            InstallProbe::AppImageVariable => appimage,
            InstallProbe::DpkgQuery => dpkg,
            InstallProbe::RpmQuery => rpm,
        };
        match detect_install_type(probe, ok) {
            ProbeStep::Found(t) => return (t, count),
            ProbeStep::Next(p) => probe = p,
        }
    }
}

#[test]
fn probes_stop_at_first_success() {
    assert_eq!(run_probes(true, true, true), (InstallType::AppImage, 1));
    assert_eq!(run_probes(false, true, true), (InstallType::Deb, 2));
    assert_eq!(run_probes(false, false, true), (InstallType::Rpm, 3));
    assert_eq!(run_probes(false, false, false), (InstallType::Unknown, 3));
}

fn newer() -> UpdateCheck {
    UpdateCheck::Available { version: "2.3.0".to_string(), notes: None }
}

#[test]
fn appimage_installs_through_updater() {
    assert!(matches!(install_update("appimage", &newer(), "2.2.3"), Ok(InstallPlan::BuiltIn)));
}

#[test]
fn deb_plan() {
    match install_update("deb", &newer(), "2.2.3") {
        Ok(InstallPlan::Package { url, tmp_path, command, failure }) => {
            assert_eq!(
                url,
                "https://github.com/youssefvdel/qwen-studio/releases/download/v2.3.0/qwen-studio_2.3.0_amd64.deb"
            );
            assert_eq!(tmp_path, "/tmp/qwen-studio_2.3.0.deb");
            assert_eq!(
                command,
                "curl -L 'https://github.com/youssefvdel/qwen-studio/releases/download/v2.3.0/qwen-studio_2.3.0_amd64.deb' -o '/tmp/qwen-studio_2.3.0.deb' && pkexec dpkg -i '/tmp/qwen-studio_2.3.0.deb'"
            );
            assert_eq!(failure, "Failed to install DEB package");
        }
        _ => panic!("expected a package plan"),
    }
}

#[test]
fn rpm_plan() {
    match install_update("rpm", &newer(), "2.2.3") {
        Ok(InstallPlan::Package { url, tmp_path, command, failure }) => {
            assert_eq!(
                url,
                "https://github.com/youssefvdel/qwen-studio/releases/download/v2.3.0/qwen-studio-2.3.0.x86_64.rpm"
            );
            assert_eq!(tmp_path, "/tmp/qwen-studio-2.3.0.x86_64.rpm");
            assert_eq!(
                command,
                "curl -L 'https://github.com/youssefvdel/qwen-studio/releases/download/v2.3.0/qwen-studio-2.3.0.x86_64.rpm' -o '/tmp/qwen-studio-2.3.0.x86_64.rpm' && pkexec rpm -Uvh '/tmp/qwen-studio-2.3.0.x86_64.rpm'"
            );
            assert_eq!(failure, "Failed to install RPM package");
        }
        _ => panic!("expected a package plan"),
    }
}

#[test]
fn other_kinds_open_releases_page() {
    for kind in ["unknown", "", "DEB", "snap"] {
        match install_update(kind, &newer(), "2.2.3") {
            Ok(InstallPlan::OpenReleasesPage(u)) => {
                assert_eq!(u, "https://github.com/youssefvdel/qwen-studio/releases/latest")
            }
            _ => panic!("expected the releases page"),
        }
    }
}

#[test]
fn failed_check_installs_nothing() {
    let f = UpdateCheck::Failed("network down".to_string());
    for kind in ["appimage", "deb", "rpm", "unknown"] {
        assert!(matches!(install_update(kind, &f, "2.2.3"), Err(e) if e == "network down"));
    }
}

#[test]
fn no_offer_installs_nothing() {
    let same = UpdateCheck::Available { version: "2.2.3".to_string(), notes: None };
    let older = UpdateCheck::Available { version: "2.0.0".to_string(), notes: None };
    for check in [UpdateCheck::UpToDate, same, older] {
        for kind in ["appimage", "deb", "rpm", "unknown"] {
            assert!(
                matches!(install_update(kind, &check, "2.2.3"), Err(e) if e == "No update available")
            );
        }
    }
}

#[test]
fn manual_offer_prompts_with_escaped_text() {
    let check = UpdateCheck::Available {
        version: "2.3.0".to_string(),
        notes: Some("New \"thing\"\nMore".to_string()),
    };
    let s = check_for_updates(&check, true, InstallType::Deb, "2.2.3").unwrap();
    assert_eq!(
        s,
        "if(confirm(\"Update 2.3.0 is available (.deb).\\n\\nNew \\\"thing\\\"\\nMore\\n\\nDownload and install? (requires sudo)\")) { window.__TAURI__.core.invoke('install_update', { type: 'deb' }); }"
    );
    let s = check_for_updates(&check, true, InstallType::Unknown, "2.2.3").unwrap();
    assert!(s.contains("Update 2.3.0 is available.\\n\\n"));
    assert!(s.contains("Open GitHub releases page?"));
    assert!(s.ends_with("{ type: 'unknown' }); }"));
    let s = check_for_updates(&newer(), true, InstallType::AppImage, "2.2.3").unwrap();
    assert!(s.contains("(AppImage).\\n\\nNo release notes\\n\\nDownload and install now?"));
    let s = check_for_updates(&check, true, InstallType::Rpm, "2.2.3").unwrap();
    assert!(s.contains("(.rpm)"));
}

#[test]
fn background_checks_are_silent() {
    assert_eq!(check_for_updates(&newer(), false, InstallType::Deb, "2.2.3"), None);
    assert_eq!(check_for_updates(&UpdateCheck::UpToDate, false, InstallType::Deb, "2.2.3"), None);
    let f = UpdateCheck::Failed("e".to_string());
    assert_eq!(check_for_updates(&f, false, InstallType::Deb, "2.2.3"), None);
}

#[test]
fn offer_that_is_not_newer_is_never_prompted() {
    let same = UpdateCheck::Available { version: "2.2.3".to_string(), notes: Some("x".to_string()) };
    assert_eq!(
        check_for_updates(&same, true, InstallType::Deb, "2.2.3"),
        Some("alert(\"You are running the latest version.\");".to_string())
    );
    let older = UpdateCheck::Available { version: "2.2.3-rc.1".to_string(), notes: None };
    assert_eq!(
        check_for_updates(&older, true, InstallType::Rpm, "2.2.3"),
        Some("alert(\"You are running the latest version.\");".to_string())
    );
}

#[test]
fn manual_up_to_date_notice() {
    assert_eq!(
        check_for_updates(&UpdateCheck::UpToDate, true, InstallType::Deb, "2.2.3"),
        Some("alert(\"You are running the latest version.\");".to_string())
    );
}

#[test]
fn manual_failure_notice() {
    let f = UpdateCheck::Failed("bad \"sig\"".to_string());
    assert_eq!(
        check_for_updates(&f, true, InstallType::Deb, "2.2.3"),
        Some("alert(\"Update check failed:\\nbad \\\"sig\\\"\");".to_string())
    );
}

#[test]
fn install_kind_name_picks_its_arm() {
    for t in [InstallType::AppImage, InstallType::Deb, InstallType::Rpm, InstallType::Unknown] {
        let plan = install_update(t.as_str(), &newer(), "2.2.3").unwrap();
        match (t, plan) {
            (InstallType::AppImage, InstallPlan::BuiltIn) => {}
            (InstallType::Deb, InstallPlan::Package { tmp_path, .. }) => {
                assert_eq!(tmp_path, "/tmp/qwen-studio_2.3.0.deb")
            }
            (InstallType::Rpm, InstallPlan::Package { tmp_path, .. }) => {
                assert_eq!(tmp_path, "/tmp/qwen-studio-2.3.0.x86_64.rpm")
            }
            (InstallType::Unknown, InstallPlan::OpenReleasesPage(_)) => {}
            _ => panic!("wrong arm for {}", t.as_str()),
        }
    }
}
