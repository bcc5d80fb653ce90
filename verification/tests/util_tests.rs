use ftc_http::time::TimeSpan;
use ftc_http::util::{java_package_to_path, package_declaration_of, BuildStatus, Files, RobotError};
use regex::Regex;

fn lines(text: &str) -> Vec<String> {
    text.lines().map(|l| l.to_string()).collect()
}

fn expected_capture(line: &str) -> Option<String> {
    let re = Regex::new(r"package ([\S]+);").unwrap();
    re.captures(line).map(|c| c[1].to_string())
}

#[test]
fn package_declaration_of_simple_lines() {
    assert_eq!(package_declaration_of("package org.firstinspires.ftc.teamcode;"), Some("org.firstinspires.ftc.teamcode".to_string()));
    assert_eq!(package_declaration_of("import x;"), None);
    assert_eq!(package_declaration_of("package ;"), None);
    assert_eq!(package_declaration_of("package a"), None);
    assert_eq!(package_declaration_of("  package a.b; // c"), Some("a.b".to_string()));
}

#[test]
fn package_declaration_takes_the_longest_name() {
    assert_eq!(package_declaration_of("package a;b;"), Some("a;b".to_string()));
    assert_eq!(package_declaration_of("package a;b c;"), Some("a".to_string()));
    assert_eq!(package_declaration_of("package ;;"), Some(";".to_string()));
}

#[test]
fn package_declaration_takes_the_leftmost_match() {
    assert_eq!(package_declaration_of("package x y; package z;"), Some("z".to_string()));
    assert_eq!(package_declaration_of("xpackage q;"), Some("q".to_string()));
    assert_eq!(package_declaration_of("package package a;"), Some("a".to_string()));
}

#[test]
fn package_declaration_agrees_with_regex_on_samples() {
    let samples = [
        "package a;b;", "package a;b c;", "package ;a;", "xxpackage foo;", "package  foo;",
        "package foo", "package a.b.c; // package d;", "package a\u{2003}b;", "package a\u{a0};",
        "package é.ü;", "package\tfoo;", "PACKAGE foo;", "package package foo;", "package ;;;",
        "package a;\u{85}b;",
    ];
    for s in samples {
        assert_eq!(package_declaration_of(s), expected_capture(s), "{:?}", s);
    }
}

#[test]
fn package_declaration_agrees_with_regex_on_generated_lines() {
    let alphabet = ['p', 'a', 'c', 'k', 'g', 'e', ' ', ';', '.', 'x', '\u{a0}', '\t'];
    let mut seed: u64 = 0x9e3779b97f4a7c15;
    for _ in 0..3000 {
        let mut line = String::new();
        seed = seed.wrapping_mul(6364136223846793005).wrapping_add(1442695040888963407);
        let len = (seed >> 59) as usize + 8;
        for _ in 0..len {
            seed = seed.wrapping_mul(6364136223846793005).wrapping_add(1442695040888963407);
            if (seed >> 60) < 3 {
                line.push_str("package ");
            } else {
                line.push(alphabet[((seed >> 33) % alphabet.len() as u64) as usize]);
            }
        }
        assert_eq!(package_declaration_of(&line), expected_capture(&line), "{:?}", line);
    }
}

#[test]
fn java_package_to_path_uses_first_declaration() {
    let text = "// header\npackage org.firstinspires.ftc.teamcode;\n\nimport x;\npackage other;\n";
    let r = java_package_to_path(&lines(text), "Auto.java", "src/Auto.java");
    assert_eq!(r.unwrap(), "/org/firstinspires/ftc/teamcode/Auto.java");
}

#[test]
fn java_package_to_path_skips_empty_components() {
    let r = java_package_to_path(&lines("package .a..b.;"), "X.java", "X.java");
    assert_eq!(r.unwrap(), "/a/b/X.java");
    let r = java_package_to_path(&lines("package ...;"), "X.java", "X.java");
    assert_eq!(r.unwrap(), "//X.java");
}

#[test]
fn java_package_to_path_without_package_fails() {
    match java_package_to_path(&lines("class A {}\n"), "A.java", "dir/A.java") {
        Err(RobotError::NoJavaPackage(p)) => assert_eq!(p, "dir/A.java"),
        other => panic!("unexpected {:?}", other),
    }
    match java_package_to_path(&Vec::new(), "A.java", "A.java") {
        Err(RobotError::NoJavaPackage(p)) => assert_eq!(p, "A.java"),
        other => panic!("unexpected {:?}", other),
    }
}

#[test]
fn not_connected_message_text() {
    let expected = "No known hosts were online.\n\n
                Please check that your robot controller is in \"Program & Manage\" mode and\n\
                that your computer is connected to the robot controller via wifi-direct.\n\
                Alternatively, you can try manually specifying a host address with the --host\n\
                option or extending the timeout period with the --host-timeout-ms option.";
    assert_eq!(RobotError::NotConnected.message(), expected);
}

#[test]
fn no_java_package_message_text() {
    let expected = "Could not resolve the Java package for dir/A.java\n\n\
                 Does the file contain a correctly formatted `package ...;` line? A package\n\
                 declaration is required by OnBotJava to assign paths to uploaded files.";
    assert_eq!(RobotError::NoJavaPackage("dir/A.java".to_string()).message(), expected);
}

#[test]
fn build_timeout_message_names_whole_seconds() {
    let expected = "The build has taken more than 15 seconds to complete and appears unresponsive.\n\n\
                 Please restart the robot controller or, if this problem persists, increase the\n\
                 build timeout using the --build-timeout-sec option.";
    assert_eq!(RobotError::BuildTimeout(TimeSpan::from_secs(15)).message(), expected);
    let m = RobotError::BuildTimeout(TimeSpan::from_millis(2999)).message();
    assert!(m.starts_with("The build has taken more than 2 seconds"));
}

#[test]
fn listing_and_status_hold_their_fields() {
    let files = Files { src: vec!["/a.java".to_string()] };
    assert_eq!(files.src.len(), 1);
    let status = BuildStatus { completed: true, successful: false };
    assert!(status.completed && !status.successful);
    let old = ftc_http::data::Files { src: vec![] };
    assert!(old.src.is_empty());
}

#[test]
fn old_not_connected_message_text() {
    let expected = "No known hosts were online. Please check that your robot controller\n\
             is in \"Program & Manage\" mode and that your computer is connected to the\n\
             robot controller via wifi-direct.\n\n\

             Alternatively, you can try manually specifying a host address with the\n\
             --host option or extending the timeout period with the --timeout-ms option.";
    assert_eq!(ftc_http::error::RobotError::NotConnected.message(), expected);
}

#[test]
fn package_path_mirrors_the_package_name() {
    let r = java_package_to_path(&lines("package org.firstinspires.ftc.teamcode;"), "Drive.java", "Drive.java");
    assert_eq!(r.unwrap(), format!("/{}/{}", "org.firstinspires.ftc.teamcode".replace('.', "/"), "Drive.java"));
}
