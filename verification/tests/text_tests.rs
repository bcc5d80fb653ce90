use ftc_http::text::{
    chars_of, contains_str, decimal_string, drop_first_char, is_white_space_char, join_with,
    keep_nonempty, list_contains, split_on_char,
};

fn strings(items: &[&str]) -> Vec<String> {
    items.iter().map(|s| s.to_string()).collect()
}

#[test]
fn chars_of_keeps_every_character() {
    assert_eq!(chars_of("aé€😀"), vec!['a', 'é', '€', '😀']);
    assert_eq!(chars_of(""), Vec::<char>::new());
}

#[test]
fn contains_str_finds_substrings() {
    assert!(contains_str("Robot.java", ".java"));
    assert!(contains_str("a.javax", ".java"));
    assert!(!contains_str("Robot.jav", ".java"));
    assert!(contains_str("abc", ""));
    assert!(!contains_str("", "a"));
    assert!(contains_str(".java", ".java"));
    assert!(contains_str("xx.jav.java", ".java"));
}

#[test]
fn contains_str_agrees_with_std() {
    let hays = ["", "a", "aa", "aba", "ababab", "java.java", "é.java", "..", "abcabcab"];
    let needles = ["", "a", "ab", "ba", "aba", ".java", "é", "abcab", "c"];
    for h in hays {
        for n in needles {
            assert_eq!(contains_str(h, n), h.contains(n), "{:?} in {:?}", n, h);
        }
    }
}

#[test]
fn split_on_char_matches_std_split() {
    let cases = ["", "a", "\"", "a\"b", "\"a\"", "{\"src\":[\"/a.java\",\"/b.txt\"]}", "\"\"\"", "é\"ü"];
    for c in cases {
        let expected: Vec<String> = c.split('"').map(|s| s.to_string()).collect();
        assert_eq!(split_on_char(c, '"'), expected, "{:?}", c);
    }
}

#[test]
fn keep_nonempty_drops_empty_pieces() {
    assert_eq!(keep_nonempty(&strings(&["", "org", "", "x", ""])), strings(&["org", "x"]));
    assert_eq!(keep_nonempty(&strings(&[])), strings(&[]));
}

#[test]
fn join_with_glues_neighbours() {
    assert_eq!(join_with(&strings(&["org", "firstinspires", "ftc"]), "/"), "org/firstinspires/ftc");
    assert_eq!(join_with(&strings(&["one"]), "/"), "one");
    assert_eq!(join_with(&strings(&[]), "/"), "");
    assert_eq!(join_with(&strings(&["", ""]), ", "), ", ");
}

#[test]
fn drop_first_char_removes_one_character() {
    assert_eq!(drop_first_char("/a/b.java"), "a/b.java");
    assert_eq!(drop_first_char("/"), "");
    assert_eq!(drop_first_char("éa"), "a");
}

#[test]
fn decimal_string_matches_to_string() {
    for n in [0u64, 1, 9, 10, 15, 99, 100, 1234567890, u64::MAX] {
        assert_eq!(decimal_string(n), n.to_string());
    }
}

#[test]
fn white_space_matches_char_is_whitespace() {
    for u in 0u32..0x3100 {
        if let Some(c) = char::from_u32(u) {
            assert_eq!(is_white_space_char(c), c.is_whitespace(), "{:#x}", u);
        }
    }
    assert!(!is_white_space_char(';'));
    assert!(is_white_space_char('\u{3000}'));
}

#[test]
fn list_contains_compares_whole_strings() {
    let list = strings(&["/a/B.java", "/c.java"]);
    assert!(list_contains(&list, &"/c.java".to_string()));
    assert!(!list_contains(&list, &"/a/b.java".to_string()));
    assert!(!list_contains(&list, &"c.java".to_string()));
}

#[test]
fn splitting_at_dots_and_joining_with_slashes_replaces_dots() {
    for s in ["org.first.ftc", "", ".", "a..b.", "é.ü"] {
        let joined = join_with(&split_on_char(s, '.'), "/");
        assert_eq!(joined, s.replace('.', "/"), "{:?}", s);
        assert_eq!(join_with(&split_on_char(s, '.'), "."), s);
    }
}
