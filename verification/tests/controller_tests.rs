use ftc_http::config::AppConfig;
use ftc_http::controller::{
    build_deadline, build_outcome, connect_step, delete_form, download_address, download_query_of,
    endpoint, is_java_source, java_files, must_replace, relative_path, route_path_str, wipe_target,
    BuildOutcome, ConnectStep, ControllerError, Route,
};
use ftc_http::address::Address;
use ftc_http::time::TimeSpan;
use ftc_http::util::{BuildStatus, RobotError};

fn strings(items: &[&str]) -> Vec<String> {
    items.iter().map(|s| s.to_string()).collect()
}

fn first_address() -> Address {
    let hosts = AppConfig::default().hosts;
    match connect_step(&hosts, 0) {
        ConnectStep::Probe(a) => a,
        ConnectStep::Fail(e) => panic!("unexpected {:?}", e),
    }
}

#[test]
fn connect_step_parses_the_host() {
    let a = first_address();
    assert_eq!(a.as_str(), "http://192.168.43.1:8080/");
    assert_eq!(a.url().as_str(), "http://192.168.43.1:8080/");
}

#[test]
fn connect_step_refuses_a_bad_address() {
    let hosts = strings(&["not a url"]);
    match connect_step(&hosts, 0) {
        ConnectStep::Fail(ControllerError::Url(_)) => {}
        _ => panic!("expected a URL error"),
    }
}

#[test]
fn connect_step_gives_up_after_the_last_host() {
    let hosts = AppConfig::default().hosts;
    match connect_step(&hosts, 2) {
        ConnectStep::Fail(ControllerError::Robot(RobotError::NotConnected)) => {}
        _ => panic!("expected NotConnected"),
    }
}

#[test]
fn endpoints_resolve_against_the_host() {
    let a = first_address();
    assert_eq!(endpoint(&a, Route::FileTree).unwrap().as_str(), "http://192.168.43.1:8080/java/file/tree");
    assert_eq!(endpoint(&a, Route::BuildWait).unwrap().as_str(), "http://192.168.43.1:8080/java/build/wait");
    assert_eq!(route_path_str(Route::FileUpload), "/java/file/upload");
    assert_eq!(route_path_str(Route::FileDelete), "/java/file/delete");
    assert_eq!(route_path_str(Route::BuildStart), "/java/build/start");
    assert_eq!(route_path_str(Route::BuildStatus), "/java/build/status");
    assert_eq!(route_path_str(Route::FileDownload), "/java/file/download");
}

#[test]
fn download_address_sets_the_query() {
    let a = first_address();
    let service = endpoint(&a, Route::FileDownload).unwrap();
    let d = download_address(service, "/org/Auto.java");
    assert_eq!(d.as_str(), "http://192.168.43.1:8080/java/file/download?f=/src/org/Auto.java");
    assert_eq!(download_query_of("/x.java"), "f=/src/x.java");
}

#[test]
fn download_fetches_java_files_only() {
    let files = strings(&["/a/A.java", "/b.txt", "/c.javax", "/jar.jav"]);
    assert_eq!(java_files(&files), strings(&["/a/A.java", "/c.javax"]));
    assert_eq!(relative_path("/a/A.java"), "a/A.java");
}

#[test]
fn upload_takes_files_with_java_extension() {
    assert!(is_java_source("Auto.java"));
    assert!(is_java_source("a.b.java"));
    assert!(!is_java_source(".java"));
    assert!(!is_java_source("Auto.javax"));
    assert!(!is_java_source("java"));
    assert!(is_java_source("..java"));
    for name in ["Auto.java", ".java", "x.jav", "..java", "a.JAVA", "é.java"] {
        let by_path = std::path::Path::new(name).extension().map_or(false, |t| t == "java");
        assert_eq!(is_java_source(name), by_path, "{}", name);
    }
}

#[test]
fn upload_replaces_an_existing_remote_file() {
    let remote = strings(&["/org/A.java", "/org/B.java"]);
    assert!(must_replace(&remote, &"/org/B.java".to_string()));
    assert!(!must_replace(&remote, &"/org/C.java".to_string()));
}

#[test]
fn delete_form_names_the_file_under_src() {
    let (name, value) = delete_form("/org/A.java");
    assert_eq!(name, "delete");
    assert_eq!(value, "[\"src/org/A.java\"]");
    let (_, all) = delete_form(wipe_target());
    assert_eq!(all, "[\"src/\"]");
}

#[test]
fn build_waits_until_the_timeout() {
    let timeout = TimeSpan::from_secs(15);
    assert!(build_deadline(&TimeSpan::from_millis(14_999), &timeout).is_ok());
    match build_deadline(&TimeSpan::from_secs(15), &timeout) {
        Err(RobotError::BuildTimeout(t)) => assert_eq!(t, timeout),
        other => panic!("unexpected {:?}", other),
    }
}

#[test]
fn build_outcome_follows_the_status() {
    assert_eq!(build_outcome(&BuildStatus { completed: false, successful: true }), BuildOutcome::Pending);
    assert_eq!(build_outcome(&BuildStatus { completed: true, successful: true }), BuildOutcome::Succeeded);
    assert_eq!(build_outcome(&BuildStatus { completed: true, successful: false }), BuildOutcome::Failed);
}

use ftc_http::controller::HostSearch;

#[test]
fn search_promotes_the_host_that_answers() {
    let mut c = AppConfig::default();
    c.hosts = strings(&["http://10.0.0.1:8080", "http://10.0.0.2:8080", "http://10.0.0.3:8080"]);
    let mut search = HostSearch::start();
    let mut probed = Vec::new();
    loop {
        match search.step(&c.hosts) {
            ConnectStep::Probe(a) => {
                probed.push(a.as_str().to_string());
                let online = a.as_str() == "http://10.0.0.2:8080/";
                if search.answer(&mut c, online) {
                    break;
                }
            }
            ConnectStep::Fail(e) => panic!("unexpected {:?}", e),
        }
    }
    assert_eq!(probed, vec!["http://10.0.0.1:8080/", "http://10.0.0.2:8080/"]);
    assert_eq!(c.hosts, strings(&["http://10.0.0.2:8080", "http://10.0.0.1:8080", "http://10.0.0.3:8080"]));
    // The next search asks the remembered host first and changes nothing.
    let before = c.hosts.clone();
    let mut again = HostSearch::start();
    match again.step(&c.hosts) {
        ConnectStep::Probe(a) => assert_eq!(a.as_str(), "http://10.0.0.2:8080/"),
        ConnectStep::Fail(e) => panic!("unexpected {:?}", e),
    }
    assert!(again.answer(&mut c, true));
    assert_eq!(c.hosts, before);
}

#[test]
fn search_without_answer_ends_not_connected() {
    let mut c = AppConfig::default();
    let mut search = HostSearch::start();
    let mut probes = 0;
    loop {
        match search.step(&c.hosts) {
            ConnectStep::Probe(_) => {
                probes += 1;
                assert!(!search.answer(&mut c, false));
            }
            ConnectStep::Fail(ControllerError::Robot(RobotError::NotConnected)) => break,
            ConnectStep::Fail(e) => panic!("unexpected {:?}", e),
        }
    }
    assert_eq!(probes, 2);
    assert_eq!(c.hosts, AppConfig::default().hosts);
}
