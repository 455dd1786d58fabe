use writeme::history::{git_record, needs_history, rank_contributors};
use writeme::license::{License, SupportedLicense};
use writeme::repository::RepositoryPlatform;

fn author(name: &str, email: &str) -> (String, String) {
    (name.to_string(), email.to_string())
}

#[test]
fn most_active_first() {
    let authors = vec![
        author("A", "a@x"),
        author("B", "b@x"),
        author("B", "b@x"),
        author("C", "c@x"),
        author("B", "b@x"),
        author("C", "c@x"),
    ];
    let r = rank_contributors(&authors).0;
    assert_eq!(r.len(), 3);
    assert_eq!(r[0].name.as_deref(), Some("B"));
    assert_eq!(r[1].name.as_deref(), Some("C"));
    assert_eq!(r[2].name.as_deref(), Some("A"));
    assert_eq!(r[2].url, None);
}

#[test]
fn equal_activity_keeps_first_appearance() {
    let authors = vec![author("Z", "z@x"), author("Y", "y@x"), author("Z", "z2@x")];
    let r = rank_contributors(&authors).0;
    assert_eq!(r.len(), 3);
    assert_eq!(r[0].email.as_deref(), Some("z@x"));
    assert_eq!(r[1].email.as_deref(), Some("y@x"));
    assert_eq!(r[2].email.as_deref(), Some("z2@x"));
    assert!(rank_contributors(&vec![]).0.is_empty());
}

#[test]
fn git_record_skips_history_on_github() {
    let authors = vec![author("A", "a@x")];
    let g = git_record("/p/", "git@github.com:o/r.git", &authors);
    assert_eq!(g.source_config_file_path, "/p/.git");
    assert_eq!(g.name.as_deref(), Some("r"));
    assert_eq!(g.repository.as_ref().unwrap().platform, RepositoryPlatform::Github);
    assert!(g.contributors.is_none());
    assert!(!needs_history("https://github.com/o/r"));
    let l = git_record("/p/", "https://gitlab.com/o/r.git", &authors);
    assert_eq!(l.contributors.unwrap().0.len(), 1);
    assert!(needs_history("https://gitlab.com/o/r"));
}

#[test]
fn license_scan_finds_license_files() {
    let paths = vec![
        "/p/LICENSE".to_string(),
        "/p/src/lib.rs".to_string(),
        "/p/docs/copying.md".to_string(),
        "/p/NOTLICENSE".to_string(),
    ];
    assert_eq!(License::scan(&paths), vec!["/p/LICENSE".to_string(), "/p/docs/copying.md".to_string()]);
    assert!(License::is_license_file("license.txt"));
}

#[test]
fn license_record_and_file_need() {
    let r = License::record("/p/LICENSE".to_string(), "Apache License\nVersion 2.0\napache-2.0", &None);
    assert_eq!(r.source_config_file_path, "/p/LICENSE");
    let l = r.license.unwrap();
    assert_eq!(l.name, SupportedLicense::Apache20);
    assert!(!l.needs_file());
    assert!(License::from_name("MIT".to_string()).needs_file());
    assert!(!License::from_name("nothing".to_string()).needs_file());
}
