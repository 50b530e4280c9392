use file_server::name::{
    has_forbidden, is_separator_char, last_component, sanitize, NameError, SanitizedName,
};

fn cleaned(raw: &str) -> Option<String> {
    sanitize(raw, false).ok().map(|n| n.to_text())
}

#[test]
fn plain_name_is_kept() {
    assert_eq!(cleaned("report.pdf").as_deref(), Some("report.pdf"));
    assert_eq!(cleaned("notes-2024_final.txt").as_deref(), Some("notes-2024_final.txt"));
}

#[test]
fn directory_components_are_stripped() {
    assert_eq!(cleaned("../etc/passwd").as_deref(), Some("passwd"));
    assert_eq!(cleaned("/etc/passwd").as_deref(), Some("passwd"));
    assert_eq!(cleaned("../../etc/passwd").as_deref(), Some("passwd"));
    assert_eq!(cleaned("..\\..\\boot.ini").as_deref(), Some("boot.ini"));
    assert_eq!(cleaned("a/b").as_deref(), Some("b"));
    assert_eq!(cleaned("a\\b/c\\d.txt").as_deref(), Some("d.txt"));
    assert_eq!(cleaned("dir/..x").as_deref(), Some("..x"));
}

#[test]
fn reserved_characters_are_removed() {
    assert_eq!(cleaned("a?b<c>d:e*f|g\"h").as_deref(), Some("abcdefgh"));
    assert_eq!(cleaned("nul\0byte").as_deref(), Some("nulbyte"));
    assert_eq!(cleaned("tab\tname\n").as_deref(), Some("tabname"));
}

#[test]
fn traversal_never_survives() {
    let raws = [
        "../", "../../", "/", "//", "..", ".", "./.", "../..", "/..", "\\..\\", "../x/../y",
        "/abs/path", "C:\\windows\\system32", "....//....//etc", "a/../../b",
    ];
    for raw in raws {
        match sanitize(raw, false) {
            Ok(name) => {
                let text = name.as_str();
                assert!(!text.is_empty());
                assert!(!text.contains('/'));
                assert!(!text.contains('\\'));
                assert!(!text.contains('\0'));
                assert_ne!(text, ".");
                assert_ne!(text, "..");
                assert_eq!(name.path(), format!("./{}", text));
            }
            Err(e) => assert_eq!(e, NameError::Empty),
        }
    }
}

#[test]
fn empty_name_is_refused() {
    assert_eq!(sanitize("", false).err(), Some(NameError::Empty));
    assert_eq!(sanitize("..", false).err(), Some(NameError::Empty));
    assert_eq!(sanitize(".", false).err(), Some(NameError::Empty));
    assert_eq!(sanitize("../", false).err(), Some(NameError::Empty));
    assert_eq!(sanitize("///", false).err(), Some(NameError::Empty));
    assert_eq!(sanitize("?*?", false).err(), Some(NameError::Empty));
    assert_eq!(sanitize("dir/", false).err(), Some(NameError::Empty));
    assert_eq!(sanitize("dir/..", false).err(), Some(NameError::Empty));
    assert_eq!(sanitize("a/b\\", false).err(), Some(NameError::Empty));
}

#[test]
fn long_name_is_cut() {
    let raw = "a".repeat(300);
    let name = sanitize(&raw, false).unwrap();
    assert_eq!(name.as_str().len(), 255);
    let dots_then_letter = format!("{}a", ".".repeat(255));
    let name = sanitize(&dots_then_letter, false).unwrap();
    assert_eq!(name.as_str(), ".".repeat(255));
}

#[test]
fn from_cleaned_takes_safe_text() {
    let name = SanitizedName::from_cleaned(String::from("ok.txt")).unwrap();
    assert_eq!(name.as_str(), "ok.txt");
    assert_eq!(name.to_text(), "ok.txt");
    assert_eq!(name.path(), "./ok.txt");
    let copy = name.clone();
    assert_eq!(copy.as_str(), "ok.txt");
    let dots = SanitizedName::from_cleaned(String::from("...")).unwrap();
    assert_eq!(dots.path(), "./...");
    let accented = SanitizedName::from_cleaned(String::from("é.txt")).unwrap();
    assert_eq!(accented.as_str(), "é.txt");
}

#[test]
fn from_cleaned_refuses_unsafe_text() {
    assert_eq!(SanitizedName::from_cleaned(String::new()).err(), Some(NameError::Empty));
    for text in ["a/b", "/", "a\\b", "a\0b", ".", "..", "../x", "x/"] {
        assert_eq!(
            SanitizedName::from_cleaned(String::from(text)).err(),
            Some(NameError::Unsafe),
            "{:?}",
            text
        );
    }
}

#[test]
fn forbidden_characters_are_found() {
    assert!(has_forbidden("a/b"));
    assert!(has_forbidden("a\\b"));
    assert!(has_forbidden("ab\0"));
    assert!(!has_forbidden("a.b"));
    assert!(!has_forbidden(""));
    assert!(!has_forbidden(".."));
}

#[test]
fn last_component_follows_last_separator() {
    assert_eq!(last_component("../../etc/passwd"), "passwd");
    assert_eq!(last_component("/etc/passwd"), "passwd");
    assert_eq!(last_component("a\\b"), "b");
    assert_eq!(last_component("a/b\\c/d"), "d");
    assert_eq!(last_component("plain.txt"), "plain.txt");
    assert_eq!(last_component("dir/"), "");
    assert_eq!(last_component("/"), "");
    assert_eq!(last_component(""), "");
    assert_eq!(last_component(".."), "..");
    assert_eq!(last_component("x/.."), "..");
    assert_eq!(last_component("é/ü.txt"), "ü.txt");
    assert_eq!(last_component("a:b?c"), "a:b?c");
}

#[test]
fn separators_are_slash_and_backslash() {
    assert!(is_separator_char('/'));
    assert!(is_separator_char('\\'));
    assert!(!is_separator_char('.'));
    assert!(!is_separator_char(':'));
    assert!(!is_separator_char('\0'));
}
