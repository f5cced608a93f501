use coduchi::overwrite::{OverwriteCheck, existing_files, overwrite_check, target_files};
use coduchi::text::{
    comment_line, join, lines_of, replace_all, str_eq, strip_comment_lines, white_space,
};

#[test]
fn replace_all_matches_std_replace() {
    for (s, p, r) in [
        ("aaa", "aa", "b"),
        ("abcabc", "bc", "X"),
        ("", "x", "y"),
        ("no match", "zz", "y"),
        ("${VARIANT}${VARIANT}", "${VARIANT}", ""),
    ] {
        assert_eq!(replace_all(s, p, r), s.replace(p, r));
    }
}

#[test]
fn lines_match_std_lines() {
    for s in ["", "a", "a\n", "a\nb", "\n", "a\r\nb\r\n", "a\r", "\n\n", "x\r\r\n"] {
        let expected: Vec<String> = s.lines().map(|l| l.to_string()).collect();
        assert_eq!(lines_of(s), expected);
    }
}

#[test]
fn comment_lines_are_recognised() {
    assert!(comment_line("// c"));
    assert!(comment_line(" \t\u{3000}//"));
    assert!(!comment_line("/ /"));
    assert!(!comment_line("  \"a\": 1 // trailing"));
    assert!(!comment_line(""));
}

#[test]
fn whitespace_matches_std() {
    for c in [' ', '\t', '\n', '\u{85}', '\u{a0}', '\u{2003}', '\u{3000}', 'a', '/', '\u{200b}'] {
        assert_eq!(white_space(c), c.is_whitespace());
    }
}

#[test]
fn strip_comment_lines_keeps_other_lines() {
    assert_eq!(strip_comment_lines("{\n  // c\n  \"a\": 1\n}"), "{\n  \"a\": 1\n}");
    assert_eq!(strip_comment_lines("// only"), "");
}

#[test]
fn join_and_equality() {
    assert_eq!(join(&vec!["a".to_string(), "b".to_string()], ", "), "a, b");
    assert_eq!(join(&vec![], ", "), "");
    assert!(str_eq("生成", "生成"));
    assert!(!str_eq("ab", "abc"));
}

#[test]
fn overwrite_checks_target_files() {
    let targets = target_files();
    assert_eq!(targets, vec!["devcontainer.json", "compose.yaml", "Dockerfile"]);
    let existing = existing_files(&targets, &vec![true, true, false]);
    assert_eq!(existing, vec!["devcontainer.json", "compose.yaml"]);
    assert!(matches!(overwrite_check(true, "d", &existing), OverwriteCheck::Proceed));
    assert!(matches!(overwrite_check(false, "d", &vec![]), OverwriteCheck::Proceed));
    match overwrite_check(false, "d/.devcontainer", &existing) {
        OverwriteCheck::Ask(q) => assert_eq!(
            q,
            "以下のファイルが既に存在します（d/.devcontainer内）：\ndevcontainer.json\ncompose.yaml\n上書きしますか？"
        ),
        OverwriteCheck::Proceed => panic!("expected a question"),
    }
}
