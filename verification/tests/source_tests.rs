use loco_gen::derive_provisional_ident;

#[test]
fn derives_ident_from_repository_url() {
    let url = "https://github.com/floscodes/loco-git-task-template.git";
    assert_eq!(
        derive_provisional_ident(url),
        Some("loco-git-task-template".to_string())
    );
}

#[test]
fn keeps_segment_without_suffix() {
    assert_eq!(
        derive_provisional_ident("https://example.com/widgets-repo"),
        Some("widgets-repo".to_string())
    );
}

#[test]
fn strips_exactly_one_suffix_occurrence() {
    assert_eq!(
        derive_provisional_ident("a/b.git.git"),
        Some("b.git".to_string())
    );
}

#[test]
fn url_without_slash_is_its_own_segment() {
    assert_eq!(derive_provisional_ident("widgets"), Some("widgets".to_string()));
}

#[test]
fn rejects_urls_with_no_usable_segment() {
    assert_eq!(derive_provisional_ident(""), None);
    assert_eq!(derive_provisional_ident("https://example.com/"), None);
    assert_eq!(derive_provisional_ident("https://example.com/.git"), None);
}
