use ftc_http::controller::BuildOutcome;
use ftc_http::plaintext::{
    address_of, build_state, download_address_of, is_pushed_file_name, known_hosts,
    listed_java_files, new_upload_form, upload_form, wipe_body, CONNECT_TIMEOUT_SECS,
};

#[test]
fn known_hosts_are_hub_then_phone() {
    assert_eq!(known_hosts(), vec!["http://192.168.43.1:8080", "http://192.168.49.1:8080"]);
    assert_eq!(CONNECT_TIMEOUT_SECS, 3);
}

#[test]
fn listing_yields_quoted_java_files() {
    let tree = "{\"src\":[\"/org/A.java\",\"/org/notes.txt\",\"/B.java\"]}";
    assert_eq!(listed_java_files(tree), vec!["/org/A.java".to_string(), "/B.java".to_string()]);
    assert!(listed_java_files("no quotes here").is_empty());
}

#[test]
fn addresses_are_host_then_path() {
    assert_eq!(address_of("http://h:1", "/java/file/tree"), "http://h:1/java/file/tree");
    assert_eq!(download_address_of("http://h:1", "/A.java"), "http://h:1/java/file/download?f=/src/A.java");
}

#[test]
fn pushed_files_hold_java() {
    assert!(is_pushed_file_name("A.java"));
    assert!(is_pushed_file_name("A.java.bak"));
    assert!(!is_pushed_file_name("A.kt"));
}

#[test]
fn upload_form_has_the_multipart_layout() {
    let f = upload_form("b0", "A.java", "class A {}");
    assert_eq!(f.content_type, "multipart/form-data; boundary=b0");
    assert_eq!(
        f.body,
        "--b0\nContent-Disposition: form-data; name=\"file\"; filename=\"A.java\"\nContent-Type: text/x-java\n\nclass A {}\n\n--b0--"
    );
    assert_eq!(f.content_length, f.body.len());
    let g = upload_form("b", "É.java", "é");
    assert_eq!(g.content_length, g.body.len());
    assert!(g.content_length > g.body.chars().count());
}

#[test]
fn new_upload_form_uses_a_random_hex_boundary() {
    let f = new_upload_form("A.java", "x");
    let boundary = f.content_type.strip_prefix("multipart/form-data; boundary=").unwrap();
    assert_eq!(boundary.len(), 32);
    assert!(boundary.chars().all(|c| c.is_ascii_digit() || ('a'..='f').contains(&c)));
    assert!(f.body.starts_with(&format!("--{}\n", boundary)));
    assert!(f.body.ends_with(&format!("--{}--", boundary)));
    let g = new_upload_form("A.java", "x");
    assert_ne!(f.content_type, g.content_type);
}

#[test]
fn build_state_reads_the_status_text() {
    assert_eq!(build_state("{\"completed\": false}"), BuildOutcome::Pending);
    assert_eq!(build_state("{\"completed\": true, \"successful\": true}"), BuildOutcome::Succeeded);
    assert_eq!(build_state("{\"completed\": true, \"successful\": false}"), BuildOutcome::Failed);
    assert_eq!(build_state("{\"completed\":true}"), BuildOutcome::Pending);
}

#[test]
fn wipe_body_deletes_src() {
    assert_eq!(wipe_body(), "delete=[\"src\"]");
    assert_eq!(wipe_body().len(), 14);
}

use ftc_http::plaintext::{
    file_download_uri, first_probe, next_probe, service_uri, unreachable_message, ProbeStep,
};

#[test]
fn probing_uses_the_first_host_that_answers_in_time() {
    assert_eq!(first_probe(2), ProbeStep::Probe(0));
    assert_eq!(first_probe(0), ProbeStep::GiveUp);
    assert_eq!(next_probe(0, 2, false), ProbeStep::Use(0));
    assert_eq!(next_probe(0, 2, true), ProbeStep::Probe(1));
    assert_eq!(next_probe(1, 2, false), ProbeStep::Use(1));
    assert_eq!(next_probe(1, 2, true), ProbeStep::GiveUp);
}

#[test]
fn unreachable_message_text() {
    assert_eq!(
        unreachable_message(),
        "Failed to reach the robot controller. Please check that your robot controller\n\
         is in \"Program & Manage\" mode and that your computer is connected to the\n\
         robot controller via wifi-direct."
    );
}

#[test]
fn request_uris_are_parsed_by_hyper() {
    let host = service_uri("http://192.168.43.1:8080", "").unwrap();
    assert_eq!(host.as_str(), "http://192.168.43.1:8080/");
    assert_eq!(host.uri().path(), "/");
    let tree = service_uri("http://192.168.43.1:8080", "/java/file/tree").unwrap();
    assert_eq!(tree.as_str(), "http://192.168.43.1:8080/java/file/tree");
    let file = file_download_uri("http://h:1", "/A.java").unwrap();
    assert_eq!(file.uri().query(), Some("f=/src/A.java"));
    assert!(service_uri("", "").is_err());
}
