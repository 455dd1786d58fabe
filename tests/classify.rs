use writeme::license::{classify_by_name, license_from_matches, License, SupportedLicense};
use writeme::pattern::{contains_word, escape, is_file_named};
use writeme::repository::{Repository, RepositoryPlatform};
use writeme::text::trim;

#[test]
fn trim_removes_quotes_and_spaces() {
    assert_eq!(trim("  \"demo\"  ".to_string()), "demo");
    assert_eq!(trim("\" a \"".to_string()), "a");
    assert_eq!(trim("plain".to_string()), "plain");
    assert_eq!(trim("".to_string()), "");
    assert_eq!(trim(" \t\n\"\" ".to_string()), "");
}

#[test]
fn trim_is_idempotent() {
    for s in ["  \"x y\"  ", "\" a \"", "\"\"q\"\"", "   ", "a\"b", "\u{3000}z\u{a0}"] {
        let once = trim(s.to_string());
        let twice = trim(once.clone());
        assert_eq!(once, twice);
    }
}

#[test]
fn classify_canonical_names() {
    assert_eq!(classify_by_name("MIT"), SupportedLicense::MIT);
    assert_eq!(classify_by_name("Apache-2.0"), SupportedLicense::Apache20);
    assert_eq!(classify_by_name("apache2"), SupportedLicense::Apache20);
    assert_eq!(classify_by_name("ISC"), SupportedLicense::ISC);
    assert_eq!(classify_by_name("Unlicense"), SupportedLicense::Unlicense);
}

#[test]
fn classify_unknown_text() {
    assert_eq!(classify_by_name("totally-unknown-xyz"), SupportedLicense::Unknown);
    assert_eq!(classify_by_name(""), SupportedLicense::Unknown);
}

#[test]
fn classify_whole_words_only() {
    // "mit" inside "submit" is no whole word
    assert_eq!(classify_by_name("please submit a patch"), SupportedLicense::Unknown);
    assert_eq!(classify_by_name("Licensed under the mit terms"), SupportedLicense::MIT);
}

#[test]
fn classify_is_deterministic() {
    let a = classify_by_name("GNU General Public License v3.0");
    let b = classify_by_name("GNU General Public License v3.0");
    assert_eq!(a, b);
    assert_eq!(a, SupportedLicense::GNUGeneralPublicLicenseV30);
}

#[test]
fn classify_mit_license_text() {
    let text = "MIT License\n\nCopyright (c) 2023 Someone\n\nPermission is hereby granted, free of charge, to any person obtaining a copy of this software...";
    assert_eq!(classify_by_name(text), SupportedLicense::MIT);
}

#[test]
fn keyword_meta_characters_are_literal() {
    // an unescaped '.' would match any character
    assert!(!contains_word("apache2.0", "apache2x0"));
    assert!(contains_word("apache2.0", "under apache2.0 terms"));
    assert!(contains_word("gpl-3.0", "GPL-3.0"));
}

#[test]
fn license_file_names() {
    assert!(is_file_named("LICENSE", "/p/LICENSE"));
    assert!(is_file_named("license.md", "/p/LICENSE.md"));
    assert!(!is_file_named("LICENSE", "/p/MYLICENSE"));
    assert!(!is_file_named("LICENSE.md", "/p/LICENSExmd"));
}

#[test]
fn license_from_name_and_file() {
    let l = License::from_name("MIT".to_string());
    assert_eq!(l.name, SupportedLicense::MIT);
    assert_eq!(l.path, None);
    let repo = Some(Repository::new("https://github.com/owner/repo.git".to_string()));
    let f = License::from_file("/p/LICENSE".to_string(), "MIT License", &repo);
    assert_eq!(f.name, SupportedLicense::MIT);
    assert_eq!(f.path.as_deref(), Some("/p/LICENSE"));
    assert_eq!(f.url.as_deref(), Some("https://github.com/owner/repo/blob/master/LICENSE"));
    let g = License::from_file("/p/COPYING".to_string(), "nothing here", &None);
    assert_eq!(g.name, SupportedLicense::Unknown);
    assert_eq!(g.url, None);
}

#[test]
fn license_names_as_text() {
    assert_eq!(SupportedLicense::MIT.to_string(), "MIT");
    assert_eq!(SupportedLicense::Apache20.name(), "Apache-2.0");
    assert_eq!(SupportedLicense::all().len(), 68);
}

#[test]
fn classify_takes_first_variant_in_order() {
    // the name of a later variant that contains an earlier one's name
    assert_eq!(
        classify_by_name("GNU General Public License v2.0 or later"),
        SupportedLicense::GNUGeneralPublicLicenseV20
    );
    assert_eq!(classify_by_name("The Unlicense"), SupportedLicense::Unlicense);
}

#[test]
fn repository_https_round_trip() {
    let r = Repository::new("https://github.com/owner/repo.git".to_string());
    assert_eq!(r.platform, RepositoryPlatform::Github);
    assert_eq!(r.name.as_deref(), Some("repo"));
    assert_eq!(r.sign.as_deref(), Some("owner/repo"));
    assert_eq!(r.url, "https://github.com/owner/repo");
}

#[test]
fn repository_ssh_form() {
    let r = Repository::new("git@github.com:owner/repo.git".to_string());
    assert_eq!(r.platform, RepositoryPlatform::Github);
    assert_eq!(r.name.as_deref(), Some("repo"));
    assert_eq!(r.sign.as_deref(), Some("owner/repo"));
    assert_eq!(r.url, "https://github.com/owner/repo");
}

#[test]
fn repository_other_platforms() {
    let r = Repository::new("  \"https://gitlab.com/group/project\" ".to_string());
    assert_eq!(r.platform, RepositoryPlatform::Gitlab);
    assert_eq!(r.name.as_deref(), Some("project"));
    let b = Repository::new("git@bitbucket.org:team/tool.git".to_string());
    assert_eq!(b.platform, RepositoryPlatform::Bitbucket);
    assert_eq!(b.url, "https://bitbucket.org/team/tool");
    let s = Repository::new("http://git.example.com/a/b".to_string());
    assert_eq!(s.platform, RepositoryPlatform::Unknown);
    assert_eq!(s.url, "https://git.example.com/a/b");
    assert_eq!(s.sign.as_deref(), Some("a/b"));
}

#[test]
fn repository_invalid_url_degrades() {
    let r = Repository::new(" not a url ".to_string());
    assert_eq!(r.platform, RepositoryPlatform::Unknown);
    assert_eq!(r.name, None);
    assert_eq!(r.sign, None);
    assert_eq!(r.url, "not a url");
    let deep = Repository::new("https://github.com/a/b/c".to_string());
    assert_eq!(deep.name, None);
    assert_eq!(RepositoryPlatform::Github.to_string(), "github");
    assert_eq!(RepositoryPlatform::from_str("my.gitlab.host"), RepositoryPlatform::Gitlab);
}

#[test]
fn first_match_from_answers() {
    let mut flags = vec![false; 68];
    assert_eq!(license_from_matches(&flags), SupportedLicense::Unknown);
    flags[0] = true;
    assert_eq!(license_from_matches(&flags), SupportedLicense::Unknown);
    flags[5] = true;
    flags[2] = true;
    assert_eq!(license_from_matches(&flags), SupportedLicense::MIT);
    assert_eq!(license_from_matches(&vec![false, true]), SupportedLicense::Apache20);
    assert_eq!(license_from_matches(&vec![]), SupportedLicense::Unknown);
}

#[test]
fn escape_marks_meta_characters() {
    assert_eq!(escape("apache-2.0+x"), "apache\\-2\\.0\\+x");
    assert_eq!(escape("plain"), "plain");
    assert_eq!(escape(""), "");
}
