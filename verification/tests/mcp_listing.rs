use codebeacon::mcp::listing::{directory_listing, listing_answer, listing_section, shown_entries, DirEntry};
use codebeacon::order::{sort_strings, str_le};

fn entry(name: &str, is_dir: bool) -> DirEntry {
    DirEntry { name: name.into(), is_dir }
}

#[test]
fn strings_sort_like_str() {
    let v: Vec<String> = vec!["b".into(), "a".into(), "ab".into(), "".into(), "B".into()];
    assert_eq!(sort_strings(&v), vec!["", "B", "a", "ab", "b"]);
    assert!(str_le("ab", "b"));
    assert!(str_le("a", "ab"));
    assert!(!str_le("b", "ab"));
    assert!(str_le("x", "x"));
}

#[test]
fn listing_hides_dot_entries_and_marks_directories() {
    let entries = vec![entry("src", true), entry("README.md", false), entry(".git", true), entry("b.txt", false)];
    assert_eq!(shown_entries(&entries), vec!["src/", "README.md", "b.txt"]);
    assert_eq!(directory_listing(&entries), "README.md\nb.txt\nsrc/");
    assert_eq!(listing_section(Some("repo"), "a\nb"), "[repo]\na\nb");
    assert_eq!(listing_section(None, "a"), "a");
}

#[test]
fn listing_answer_joins_sections() {
    assert_eq!(listing_answer("docs", &vec![]), "'docs' not found or empty.");
    assert_eq!(listing_answer(".", &vec!["[a]\nx".into(), "[b]\ny".into()]), "[a]\nx\n\n[b]\ny");
}
