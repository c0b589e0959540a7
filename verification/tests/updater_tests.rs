use desktop_widget_rs::ipc::UpdateStatus;
use desktop_widget_rs::updater::{
    check_outcome, classify, is_prerelease, release_tag, select_release, ReleaseInfo,
};

fn release(name: &str, version: &str) -> ReleaseInfo {
    ReleaseInfo { name: name.to_string(), version: version.to_string() }
}

#[test]
fn names_that_mark_a_prerelease() {
    assert!(is_prerelease(&release("Version 2.0 Beta", "2.0.0")));
    assert!(is_prerelease(&release("2.0 ALPHA 1", "2.0.0")));
    assert!(is_prerelease(&release("v2.0-RC1", "2.0.0")));
    assert!(is_prerelease(&release("Dev build", "2.0.0")));
    assert!(is_prerelease(&release("Release 2.0", "2.0.0-1")));
    assert!(!is_prerelease(&release("Release 2.0", "2.0.0")));
    assert!(!is_prerelease(&release("", "")));
}

#[test]
fn classification_reads_the_name_as_given() {
    assert!(classify("nightly beta", "1.0"));
    assert!(!classify("Nightly BETA", "1.0"));
    assert!(classify("stable", "1.0-pre"));
    assert!(!classify("stable", "1.0"));
}

#[test]
fn the_first_stable_release_is_chosen() {
    let releases = vec![
        release("3.0 beta", "3.0.0-beta"),
        release("Release 2.1", "2.1.0"),
        release("Release 2.0", "2.0.0"),
    ];
    assert_eq!(select_release(&releases, false, "2.0.0"), Some(1));
    assert_eq!(select_release(&releases, true, "2.0.0"), Some(0));
}

#[test]
fn the_running_version_is_not_an_update() {
    let releases = vec![release("3.0 beta", "3.0.0-beta"), release("Release 2.1", "2.1.0")];
    assert_eq!(select_release(&releases, false, "2.1.0"), None);
    assert_eq!(select_release(&releases, true, "3.0.0-beta"), None);
}

#[test]
fn an_older_release_counts_as_an_update_too() {
    let releases = vec![release("Release 1.0", "1.0.0")];
    assert_eq!(select_release(&releases, false, "2.0.0"), Some(0));
}

#[test]
fn nothing_to_choose_from() {
    assert_eq!(select_release(&vec![], false, "1.0.0"), None);
    assert_eq!(select_release(&vec![], true, "1.0.0"), None);
    let only_pre = vec![release("beta", "2.0.0"), release("x", "2.0.0-rc")];
    assert_eq!(select_release(&only_pre, false, "1.0.0"), None);
}

#[test]
fn tags_begin_with_v() {
    assert_eq!(release_tag("1.2.3"), "v1.2.3");
    assert_eq!(release_tag(""), "v");
}

#[test]
fn a_check_says_what_is_available() {
    let releases = vec![
        release("3.0 beta", "3.0.0-beta"),
        release("Release 2.1", "2.1.0"),
        release("Release 2.0", "2.0.0"),
    ];
    assert!(matches!(check_outcome(&releases, false, "2.0.0"), UpdateStatus::Available(v) if v == "2.1.0"));
    assert!(matches!(check_outcome(&releases, true, "2.0.0"), UpdateStatus::Available(v) if v == "3.0.0-beta"));
    assert!(matches!(check_outcome(&releases, false, "2.1.0"), UpdateStatus::UpToDate(v) if v == "2.1.0"));
    assert!(matches!(check_outcome(&vec![], true, "1.0.0"), UpdateStatus::UpToDate(v) if v == "1.0.0"));
}
