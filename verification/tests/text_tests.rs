use minecraft_aws::text::{chars_of, contains, newlines_to_breaks, same_text};

#[test]
fn contains_finds_the_jar_in_a_listing() {
    assert!(contains("logs\nspigot-1.16.4.jar\nworld\n", "spigot-1.16.4.jar"));
}

#[test]
fn contains_misses_an_absent_pattern() {
    assert!(!contains("logs\nworld\n", "spigot-1.16.4.jar"));
    assert!(!contains("spigot-1.16.4.ja", "spigot-1.16.4.jar"));
}

#[test]
fn contains_edge_cases() {
    assert!(contains("", ""));
    assert!(contains("abc", ""));
    assert!(!contains("", "a"));
    assert!(contains("abc", "abc"));
    assert!(contains("xxabc", "abc"));
    assert!(contains("ünïcode spigot", "spigot"));
    assert!(!contains("ab", "abc"));
}

#[test]
fn newlines_become_breaks() {
    assert_eq!(newlines_to_breaks("a\nb\n"), "a<br/>b<br/>");
    assert_eq!(newlines_to_breaks("\n\n"), "<br/><br/>");
    assert_eq!(newlines_to_breaks(""), "");
}

#[test]
fn single_line_is_kept() {
    assert_eq!(newlines_to_breaks("[12:00] Done (3.1s)!"), "[12:00] Done (3.1s)!");
}

#[test]
fn breaks_leave_no_newline() {
    let out = newlines_to_breaks("one\ntwo\r\nthree\n");
    assert!(!out.contains('\n'));
    assert_eq!(out, "one\ntwo\r\nthree\n".replace("\n", "<br/>"));
}

#[test]
fn chars_and_equality() {
    assert_eq!(chars_of("héllo"), vec!['h', 'é', 'l', 'l', 'o']);
    assert!(same_text("running", "running"));
    assert!(!same_text("running", "runnin"));
}
