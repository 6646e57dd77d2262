use llama_server_loader::paths::{is_absolute, join_path, parent_dir_or_dot};
use llama_server_loader::text::{
    digit_str, extend_words, i32_to_string, is_whitespace, parse_u16, parse_u32, str_lt,
    u64_to_string,
};
use std::path::{Path, PathBuf};

#[test]
fn u64_rendering_matches_std() {
    for n in [0u64, 1, 9, 10, 11, 99, 100, 262144, 4294967295, u64::MAX] {
        assert_eq!(u64_to_string(n), n.to_string());
    }
}

#[test]
fn i32_rendering_matches_std() {
    for n in [0i32, 1, -1, 42, -42, 1000, i32::MAX, i32::MIN] {
        assert_eq!(i32_to_string(n), n.to_string());
    }
}

#[test]
fn digit_strings() {
    assert_eq!(digit_str(0), "0");
    assert_eq!(digit_str(7), "7");
    assert_eq!(digit_str(9), "9");
}

#[test]
fn parse_u16_matches_std() {
    let cases = [
        "", "0", "7", "+7", "++7", "-0", "65535", "65536", "0011400", "11400", " 1", "1 ", "1a",
        "+", "99999999999999999999", "٣",
    ];
    for s in cases {
        assert_eq!(parse_u16(s), s.parse::<u16>().ok(), "input {s:?}");
    }
}

#[test]
fn parse_u32_matches_std() {
    let cases = [
        "", "0", "40", "+40", "4294967295", "4294967296", "262144", "2_048", "1.5", "-1", "x",
    ];
    for s in cases {
        assert_eq!(parse_u32(s), s.parse::<u32>().ok(), "input {s:?}");
    }
}

#[test]
fn whitespace_matches_std_for_every_char() {
    for c in (0u32..=0x10FFFF).filter_map(char::from_u32) {
        assert_eq!(is_whitespace(c), c.is_whitespace(), "char {:x}", c as u32);
    }
}

#[test]
fn words_match_split_whitespace() {
    let cases = [
        "",
        "   ",
        "--jinja",
        "  --ctx-size   4096 ",
        "a\tb\nc\u{3000}d\u{a0}e",
        "--reasoning-format none --chat-template-kwargs {\"x\":1}",
    ];
    for s in cases {
        let mut out = vec!["keep".to_string()];
        extend_words(&mut out, s);
        let mut expected = vec!["keep".to_string()];
        expected.extend(s.split_whitespace().map(String::from));
        assert_eq!(out, expected, "input {s:?}");
    }
}

#[test]
fn string_order_matches_std() {
    let cases = ["", "a", "b", "ab", "aa", "Qwen3-8B.gguf", "qwen", "gemma-3.gguf", "é", "z"];
    for a in cases {
        for b in cases {
            assert_eq!(str_lt(a, b), a < b, "{a:?} < {b:?}");
        }
    }
}

#[test]
fn join_matches_pathbuf_push() {
    let cases = [
        ("/models", "a.gguf"),
        ("/models/", "a.gguf"),
        ("", "a.gguf"),
        ("/models", "/abs/b.gguf"),
        ("rel/dir", "x"),
        ("/", "x"),
        ("/models", ""),
    ];
    for (base, comp) in cases {
        let mut p = PathBuf::from(base);
        p.push(comp);
        assert_eq!(join_path(base, comp), p.to_string_lossy(), "{base:?} + {comp:?}");
    }
}

#[test]
fn absolute_paths() {
    assert!(is_absolute("/usr/bin"));
    assert!(!is_absolute("usr/bin"));
    assert!(!is_absolute(""));
}

#[test]
fn parent_directory_or_dot() {
    assert_eq!(parent_dir_or_dot("/opt/llama/bin/llama-server"), "/opt/llama/bin");
    assert_eq!(parent_dir_or_dot("llama-server"), "");
    assert_eq!(parent_dir_or_dot("/llama-server"), "/");
    assert_eq!(parent_dir_or_dot("/"), ".");
    assert_eq!(parent_dir_or_dot(""), ".");
    for p in ["/a/b/c", "a/b", "a", "/a/b/", "a//b"] {
        let expected = Path::new(p)
            .parent()
            .map(|q| q.to_string_lossy().to_string())
            .unwrap_or_else(|| ".".to_string());
        assert_eq!(parent_dir_or_dot(p), expected, "{p:?}");
    }
}
