use repolocli::config::Configuration;
use repolocli::filter::{repo_filter, AllowListFilter, DenyListFilter, RepoFilter};

fn names(items: &[&str]) -> Vec<String> {
    items.iter().map(|s| s.to_string()).collect()
}

#[test]
fn deny_filter_rejects_its_name_only() {
    let f = DenyListFilter::new("a".to_string());
    assert!(!f.filter(&"a".to_string()));
    assert!(f.filter(&"b".to_string()));
    assert!(f.filter(&"".to_string()));
}

#[test]
fn allow_filter_passes_its_name_only() {
    let f = AllowListFilter::new("a".to_string());
    assert!(f.filter(&"a".to_string()));
    assert!(!f.filter(&"b".to_string()));
    assert!(!f.filter(&"A".to_string()));
}

#[test]
fn allow_list_overrides_deny_list() {
    let f = RepoFilter::new(&names(&["a", "b"]), &names(&["b"]));
    assert_eq!(f.filter(&"a".to_string()), false);
    assert_eq!(f.filter(&"b".to_string()), true);
    assert_eq!(f.filter(&"c".to_string()), true);
}

#[test]
fn repo_filter_follows_the_configuration() {
    let config = Configuration::new(
        "https://repology.org/".to_string(),
        names(&["b"]),
        names(&["a", "b"]),
    );
    let f = repo_filter(&config);
    assert_eq!(f.filter(&"a".to_string()), false);
    assert_eq!(f.filter(&"b".to_string()), true);
    assert_eq!(f.filter(&"c".to_string()), true);
}

#[test]
fn empty_allow_list_allows_everything() {
    let f = RepoFilter::new(&names(&["a"]), &names(&[]));
    assert!(f.filter(&"a".to_string()));
    assert!(f.filter(&"z".to_string()));
}

#[test]
fn empty_lists_accept_everything() {
    let f = RepoFilter::new(&names(&[]), &names(&[]));
    assert!(f.filter(&"anything".to_string()));
}

#[test]
fn any_allow_entry_lets_a_denied_name_pass() {
    let f = RepoFilter::new(&names(&["a", "b", "c"]), &names(&["b", "c"]));
    assert!(!f.filter(&"a".to_string()));
    assert!(f.filter(&"b".to_string()));
    assert!(f.filter(&"c".to_string()));
    assert!(f.filter(&"d".to_string()));
}

#[test]
fn names_are_compared_exactly() {
    let f = RepoFilter::new(&names(&["debian"]), &names(&["arch"]));
    assert!(!f.filter(&"debian".to_string()));
    assert!(f.filter(&"Debian".to_string()));
    assert!(f.filter(&"debian ".to_string()));
}
