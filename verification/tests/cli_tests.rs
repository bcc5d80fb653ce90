use ftc_http::cli::{apply_overrides, mode, plan_actions, usage_hint, Action, Mode, Options, Stage};
use ftc_http::config::AppConfig;

fn options(d: bool, w: bool, u: bool, b: bool, dirs: &[&str]) -> Options {
    Options {
        download: d,
        upload: u,
        build: b,
        wipe: w,
        directories: dirs.iter().map(|s| s.to_string()).collect(),
        host: None,
        timeout_ms: None,
        restore_defaults: false,
    }
}

fn describe(actions: &[Action]) -> Vec<String> {
    actions
        .iter()
        .map(|a| match a {
            Action::Download(d) => format!("download {}", d),
            Action::Wipe => "wipe".to_string(),
            Action::Upload(d) => format!("upload {}", d),
            Action::Build => "build".to_string(),
        })
        .collect()
}

#[test]
fn dwub_downloads_wipes_uploads_and_builds() {
    let a = plan_actions(&options(true, true, true, true, &["foo/", "bar/"]));
    assert_eq!(describe(&a), vec!["download foo/", "wipe", "upload bar/", "build"]);
}

#[test]
fn directories_default_to_current() {
    let a = plan_actions(&options(true, false, true, false, &[]));
    assert_eq!(describe(&a), vec!["download .", "upload ."]);
    let a = plan_actions(&options(true, false, true, false, &["only"]));
    assert_eq!(describe(&a), vec!["download only", "upload ."]);
}

#[test]
fn upload_alone_takes_the_first_directory() {
    let a = plan_actions(&options(false, false, true, true, &["src", "unused"]));
    assert_eq!(describe(&a), vec!["upload src", "build"]);
}

#[test]
fn mode_follows_the_options() {
    assert_eq!(mode(&options(false, false, false, false, &[])), Mode::Usage);
    assert_eq!(mode(&options(false, false, false, true, &[])), Mode::Transfer);
    let mut o = options(true, false, false, false, &[]);
    o.restore_defaults = true;
    assert_eq!(mode(&o), Mode::RestoreDefaults);
    assert_eq!(usage_hint(), "Try running with -h for a usage summary or --help for a more complete manual.");
}

#[test]
fn overrides_change_hosts_and_timeout() {
    let mut c = AppConfig::default();
    apply_overrides(&mut c, Some("http://10.0.0.9:8080".to_string()), Some(1200));
    assert_eq!(c.hosts[0], "http://10.0.0.9:8080");
    assert_eq!(c.hosts.len(), 3);
    assert_eq!(c.host_timeout.as_secs(), 1);
    assert_eq!(c.host_timeout.subsec_nanos(), 200_000_000);
    let mut d = AppConfig::default();
    apply_overrides(&mut d, None, None);
    assert_eq!(d.hosts.len(), 2);
    assert_eq!(d.host_timeout.subsec_nanos(), 500_000_000);
}

#[test]
fn stages_have_their_exit_codes_and_reports() {
    assert_eq!(Stage::SaveConfig.exit_code(), 1);
    assert_eq!(Stage::LoadConfig.exit_code(), 2);
    assert_eq!(Stage::Connect.exit_code(), 3);
    assert_eq!(Stage::Download.exit_code(), 4);
    assert_eq!(Stage::Wipe.exit_code(), 5);
    assert_eq!(Stage::Upload.exit_code(), 6);
    assert_eq!(Stage::Build.exit_code(), 7);
    assert_eq!(
        Stage::Download.failure_report("boom"),
        "Failed to download source files from the robot controller. \n\nboom"
    );
}

#[test]
fn save_failure_names_the_error_twice() {
    assert_eq!(
        Stage::SaveConfig.failure_report("disk full"),
        "Failed disk full to save configuration to file. \n\ndisk full"
    );
    assert_eq!(
        Stage::LoadConfig.failure_report("bad toml"),
        "Failed to read configuration from file. \n\nbad toml"
    );
}
