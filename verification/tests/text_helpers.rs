use docker_core::text::{
    chars_of, contains_str, decimal_text, is_space_char, join_strings, split_str, string_of,
    strip_leading, strip_prefix_all, text_equals,
};

#[test]
fn white_space_is_what_std_says() {
    let mut code: u32 = 0;
    while code <= 0x10FFFF {
        if let Some(c) = char::from_u32(code) {
            assert_eq!(is_space_char(c), c.is_whitespace(), "U+{:04X}", code);
        }
        code += 1;
    }
}

#[test]
fn chars_round_trip() {
    let text = "a/ß→😀";
    let chars = chars_of(text);
    assert_eq!(chars, text.chars().collect::<Vec<char>>());
    assert_eq!(string_of(&chars), text);
    assert_eq!(string_of(&Vec::new()), "");
}

#[test]
fn split_is_std_split() {
    let samples = ["", "/", "a", "a/b", "/a", "a/", "a//b", "//", "80/tcp", "a/b/c/", "é/ü"];
    for s in samples {
        let expected: Vec<String> = s.split('/').map(|p| p.to_string()).collect();
        assert_eq!(split_str(s, '/'), expected, "{:?}", s);
    }
}

#[test]
fn one_leading_slash_is_stripped() {
    assert_eq!(strip_leading("/web-1", '/'), "web-1");
    assert_eq!(strip_leading("web-1", '/'), "web-1");
    assert_eq!(strip_leading("//web-1", '/'), "/web-1");
    assert_eq!(strip_leading("", '/'), "");
    assert_eq!(strip_leading("/", '/'), "");
    assert_eq!(strip_leading("web/1", '/'), "web/1");
}

#[test]
fn repeated_prefix_is_stripped() {
    let samples = ["sha256:abcd", "abcd", "sha256:sha256:abcd", "sha256", "", "sha256:", "xsha256:a"];
    for s in samples {
        assert_eq!(strip_prefix_all(s, "sha256:"), s.trim_start_matches("sha256:"), "{:?}", s);
    }
    assert_eq!(strip_prefix_all("aaa", ""), "aaa");
    assert_eq!(strip_prefix_all("aaab", "a"), "b");
    assert_eq!(strip_prefix_all("ababa", "ab"), "a");
}

#[test]
fn contains_is_std_contains() {
    let hays = ["", "connection", "a connection refused", "connectio", "Connection", "xconnectionx"];
    let needles = ["", "connection", "c", "on", "refused", "z"];
    for h in hays {
        for n in needles {
            assert_eq!(contains_str(h, n), h.contains(n), "{:?} in {:?}", n, h);
        }
    }
}

#[test]
fn join_is_std_join() {
    let cases: Vec<Vec<String>> = vec![
        vec![],
        vec!["a".to_string()],
        vec!["nginx".to_string(), "-g".to_string(), "daemon off;".to_string()],
        vec!["".to_string(), "".to_string()],
    ];
    for parts in cases {
        assert_eq!(join_strings(&parts, " "), parts.join(" "));
        assert_eq!(join_strings(&parts, ", "), parts.join(", "));
        assert_eq!(join_strings(&parts, ""), parts.join(""));
    }
}

#[test]
fn decimal_is_std_to_string() {
    let samples = [0u64, 1, 9, 10, 11, 99, 100, 101, 404, 500, 65535, 1234567890, u64::MAX];
    for n in samples {
        assert_eq!(decimal_text(n), n.to_string());
    }
}

#[test]
fn equal_texts() {
    assert!(text_equals("Read", "Read"));
    assert!(!text_equals("Read", "read"));
    assert!(!text_equals("Read", "Rea"));
    assert!(!text_equals("Read", "Reads"));
    assert!(text_equals("", ""));
}
