use repo_zipper::errors::SubmitError;
use repo_zipper::update::{
    evaluate_release, filename_from_url, installer_action, is_newer, parse_repo_slug, select_asset,
    strip_leading_v, AssetInfo, InstallerAction, Platform, ReleaseInfo, Tool, VersionParts,
};

fn version(major: u64, minor: u64, patch: u64, pre: &str) -> VersionParts {
    VersionParts { major, minor, patch, pre: String::from(pre) }
}

fn asset(name: &str) -> AssetInfo {
    AssetInfo {
        name: String::from(name),
        download_url: format!("http://releases.example/{name}"),
    }
}

fn release(tag: &str, names: &[&str]) -> ReleaseInfo {
    ReleaseInfo {
        tag_name: String::from(tag),
        assets: names.iter().map(|n| asset(n)).collect(),
    }
}

#[test]
fn newer_compares_numeric_components_lexicographically() {
    assert!(is_newer(&version(2, 0, 0, ""), &version(1, 9, 9, "")));
    assert!(is_newer(&version(1, 3, 0, ""), &version(1, 2, 9, "")));
    assert!(is_newer(&version(1, 2, 4, ""), &version(1, 2, 3, "")));
    assert!(!is_newer(&version(1, 2, 3, ""), &version(1, 2, 3, "")));
    assert!(!is_newer(&version(1, 2, 3, ""), &version(1, 2, 4, "")));
}

#[test]
fn newer_prefers_release_over_prerelease() {
    assert!(is_newer(&version(1, 0, 0, ""), &version(1, 0, 0, "alpha")));
    assert!(!is_newer(&version(1, 0, 0, "alpha"), &version(1, 0, 0, "")));
    assert!(!is_newer(&version(1, 0, 0, ""), &version(1, 0, 0, "")));
}

#[test]
fn newer_orders_prereleases_by_semver_precedence() {
    assert!(is_newer(&version(1, 0, 0, "beta"), &version(1, 0, 0, "alpha")));
    assert!(!is_newer(&version(1, 0, 0, "alpha"), &version(1, 0, 0, "beta")));
    assert!(!is_newer(&version(1, 0, 0, "alpha"), &version(1, 0, 0, "alpha")));
    // Numeric identifiers compare numerically, not lexically.
    assert!(is_newer(&version(1, 0, 0, "rc.10"), &version(1, 0, 0, "rc.9")));
    assert!(!is_newer(&version(1, 0, 0, "rc.9"), &version(1, 0, 0, "rc.10")));
    // Numeric identifiers precede alphanumeric ones.
    assert!(is_newer(&version(1, 0, 0, "alpha.beta"), &version(1, 0, 0, "alpha.1")));
    // A larger identifier set follows a smaller one that it extends.
    assert!(is_newer(&version(1, 0, 0, "alpha.1"), &version(1, 0, 0, "alpha")));
}

#[test]
fn strip_leading_v_removes_every_leading_v() {
    assert_eq!(strip_leading_v("v1.2.3"), "1.2.3");
    assert_eq!(strip_leading_v("vv2.0.0"), "2.0.0");
    assert_eq!(strip_leading_v("1.0.0"), "1.0.0");
    assert_eq!(strip_leading_v(""), "");
}

#[test]
fn select_asset_follows_windows_priorities() {
    let assets = vec![asset("notes.zip"), asset("setup.ps1"), asset("tool.msi"), asset("run.bat")];
    assert_eq!(select_asset(Platform::Windows, &assets), Some(2));
    let assets = vec![asset("a.txt"), asset("run.cmd"), asset("setup.ps1")];
    assert_eq!(select_asset(Platform::Windows, &assets), Some(1));
    let assets = vec![asset("a.txt"), asset("b.zip")];
    assert_eq!(select_asset(Platform::Windows, &assets), Some(1));
    let assets = vec![asset("a.txt")];
    assert_eq!(select_asset(Platform::Windows, &assets), None);
}

#[test]
fn select_asset_follows_unix_priorities() {
    let assets = vec![asset("tool.tar.gz"), asset("install.sh"), asset("direct-install-x86.sh")];
    assert_eq!(select_asset(Platform::Unix, &assets), Some(2));
    let assets = vec![asset("tool.tgz"), asset("setup.bash")];
    assert_eq!(select_asset(Platform::Unix, &assets), Some(1));
    let assets = vec![asset("tool.exe")];
    assert_eq!(select_asset(Platform::Unix, &assets), None);
}

#[test]
fn select_asset_takes_first_of_equal_tier() {
    let assets = vec![asset("one.sh"), asset("two.sh")];
    assert_eq!(select_asset(Platform::Unix, &assets), Some(0));
}

#[test]
fn select_asset_other_platforms_want_an_installer_name() {
    let assets = vec![asset("readme.txt"), asset("setup-wizard.bin")];
    assert_eq!(select_asset(Platform::Other, &assets), Some(1));
    let assets = vec![asset("readme.txt")];
    assert_eq!(select_asset(Platform::Other, &assets), None);
}

#[test]
fn installer_dispatch_by_extension_and_platform() {
    assert_eq!(installer_action(Platform::Unix, "x.sh"), InstallerAction::RunDirect);
    assert_eq!(installer_action(Platform::Unix, "x.bash"), InstallerAction::RunWith(Tool::Bash));
    assert_eq!(installer_action(Platform::Unix, "x.zsh"), InstallerAction::RunWith(Tool::Zsh));
    assert_eq!(installer_action(Platform::Unix, "x.tar.gz"), InstallerAction::ManualExtract);
    assert_eq!(installer_action(Platform::Unix, "x.tgz"), InstallerAction::ManualExtract);
    assert_eq!(installer_action(Platform::Unix, "x.bin"), InstallerAction::ManualInstall);
    assert_eq!(installer_action(Platform::Windows, "x.exe"), InstallerAction::RunDirect);
    assert_eq!(installer_action(Platform::Windows, "x.msi"), InstallerAction::RunWith(Tool::Msiexec));
    assert_eq!(installer_action(Platform::Windows, "x.bat"), InstallerAction::RunWith(Tool::Cmd));
    assert_eq!(installer_action(Platform::Windows, "x.cmd"), InstallerAction::RunWith(Tool::Cmd));
    assert_eq!(
        installer_action(Platform::Windows, "x.ps1"),
        InstallerAction::RunWith(Tool::Powershell)
    );
    assert_eq!(installer_action(Platform::Windows, "x.zip"), InstallerAction::ManualExtract);
    assert_eq!(installer_action(Platform::Windows, "x.rar"), InstallerAction::ManualInstall);
    assert_eq!(installer_action(Platform::Other, "install.sh"), InstallerAction::ManualInstall);
}

#[test]
fn filename_is_the_part_after_the_last_slash() {
    assert_eq!(filename_from_url("http://a/b/c/tool.sh"), "tool.sh");
    assert_eq!(filename_from_url("tool.sh"), "tool.sh");
    assert_eq!(filename_from_url("http://a/"), "");
}

#[test]
fn repo_slug_takes_the_last_two_components() {
    assert_eq!(
        parse_repo_slug("https://github.com/acme/widget.git"),
        Ok((String::from("acme"), String::from("widget")))
    );
    assert_eq!(
        parse_repo_slug("https://github.com/acme/widget/"),
        Ok((String::from("acme"), String::from("widget")))
    );
    assert_eq!(parse_repo_slug("acme/widget"), Ok((String::from("acme"), String::from("widget"))));
    assert!(matches!(parse_repo_slug("widget"), Err(SubmitError::ConfigError(_))));
}

#[test]
fn evaluate_release_offers_a_newer_version() {
    let rel = release("v2.1.0", &["direct-install.sh", "tool.tar.gz"]);
    let r = evaluate_release("1.4.2", 200, String::new(), Some(rel), Platform::Unix)
        .expect("evaluation");
    let plan = r.expect("an update is due");
    assert_eq!(plan.version.major, 2);
    assert_eq!(plan.version.minor, 1);
    assert_eq!(plan.version.patch, 0);
    assert_eq!(plan.version.pre, "");
    assert_eq!(plan.download_url, "http://releases.example/direct-install.sh");
}

#[test]
fn evaluate_release_reports_nothing_when_current_is_latest() {
    let rel = release("v1.4.2", &["direct-install.sh"]);
    let r = evaluate_release("1.4.2", 200, String::new(), Some(rel), Platform::Unix)
        .expect("evaluation");
    assert!(r.is_none());
}

#[test]
fn evaluate_release_treats_not_found_as_no_releases() {
    let r = evaluate_release("1.0.0", 404, String::new(), None, Platform::Unix)
        .expect("no releases is not an error");
    assert!(r.is_none());
}

#[test]
fn evaluate_release_rejects_other_failures() {
    let r = evaluate_release("1.0.0", 500, String::from("oops"), None, Platform::Unix);
    assert_eq!(
        r,
        Err(SubmitError::ServerRejected { status: 500, body: String::from("oops") })
    );
}

#[test]
fn evaluate_release_wants_a_readable_body() {
    let r = evaluate_release("1.0.0", 200, String::from("<html>"), None, Platform::Unix);
    assert!(matches!(r, Err(SubmitError::ProtocolError(_))));
}

#[test]
fn evaluate_release_rejects_an_unversioned_tag() {
    let rel = release("nightly", &["direct-install.sh"]);
    let r = evaluate_release("1.0.0", 200, String::new(), Some(rel), Platform::Unix);
    assert!(matches!(r, Err(SubmitError::ProtocolError(_))));
}

#[test]
fn evaluate_release_needs_an_asset_for_the_platform() {
    let rel = release("v9.0.0", &["tool.exe"]);
    let r = evaluate_release("1.0.0", 200, String::new(), Some(rel), Platform::Unix);
    assert!(matches!(r, Err(SubmitError::ConfigError(_))));
}
