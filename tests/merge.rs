use std::cell::Cell;
use writeme::converter::{Contributor, Contributors, ConverterOutput, Dependencies, Dependency};
use writeme::dispatch::Converter;
use writeme::license::{License, SupportedLicense};
use writeme::merger::{first_option, merge_with_choices, prefer_value, MergeChoices, Merger, SelectOption};
use writeme::repository::Repository;

fn record(source: &str) -> ConverterOutput {
    let mut r = ConverterOutput::empty();
    r.source_config_file_path = source.to_string();
    r
}

fn dep(name: &str, version: &str) -> Dependency {
    Dependency { name: name.to_string(), version: Some(version.to_string()) }
}

fn person(name: &str, email: &str) -> Contributor {
    Contributor { name: Some(name.to_string()), email: Some(email.to_string()), url: None }
}

/// A resolver that counts the questions it is asked and never chooses.
fn declining(asked: &Cell<usize>) -> impl Fn(String, Vec<SelectOption<String>>) -> Option<usize> + '_ {
    move |_field: String, _options: Vec<SelectOption<String>>| {
        asked.set(asked.get() + 1);
        None
    }
}

fn preferring(value: &'static str) -> impl Fn(String, Vec<SelectOption<String>>) -> Option<usize> {
    move |_field: String, options: Vec<SelectOption<String>>| prefer_value(value, &options)
}

#[test]
fn dependency_dedup_first_wins() {
    let mut a = record("a");
    a.dependencies = Some(Dependencies(vec![dep("a", "1")]));
    let mut b = record("b");
    b.dependencies = Some(Dependencies(vec![dep("a", "2")]));
    let m = Merger::new().merge(vec![a, b], first_option);
    let deps = m.dependencies.unwrap().0;
    assert_eq!(deps.len(), 1);
    assert_eq!(deps[0].name, "a");
    assert_eq!(deps[0].version.as_deref(), Some("1"));
}

#[test]
fn contributor_identity_is_email() {
    let mut a = record("a");
    a.contributors = Some(Contributors(vec![person("Ann", "x@y.z"), person("Bob", "b@y.z")]));
    let mut b = record("b");
    b.contributors = Some(Contributors(vec![person("Annie", "x@y.z"), person("Bob", "other@y.z")]));
    let m = Merger::new().merge(vec![a, b], first_option);
    let c = m.contributors.unwrap().0;
    assert_eq!(c.len(), 3);
    assert_eq!(c[0].name.as_deref(), Some("Ann"));
    assert_eq!(c[1].email.as_deref(), Some("b@y.z"));
    assert_eq!(c[2].email.as_deref(), Some("other@y.z"));
}

#[test]
fn single_candidate_needs_no_resolver() {
    let mut a = record("a");
    a.name = Some("only".to_string());
    let mut b = record("b");
    b.name = Some(String::new());
    let c = record("c");
    let asked = Cell::new(0);
    let mut l = record("l");
    l.license = Some(License::from_name("MIT".to_string()));
    let m = Merger::new().merge(vec![a, b, c, l], declining(&asked));
    assert_eq!(m.name.as_deref(), Some("only"));
    assert_eq!(asked.get(), 0);
    assert_eq!(m.license.unwrap().name, SupportedLicense::MIT);
}

#[test]
fn multiple_candidates_pick_first() {
    let mut a = record("a");
    a.name = Some("foo".to_string());
    let mut b = record("b");
    b.name = Some("bar".to_string());
    let mut c = record("c");
    c.name = Some("foo".to_string());
    let m = Merger::new().merge(vec![a, b, c], first_option);
    assert_eq!(m.name.as_deref(), Some("foo"));
}

#[test]
fn declined_conflict_leaves_field_absent() {
    let mut a = record("a");
    a.version = Some("1".to_string());
    let mut b = record("b");
    b.version = Some("2".to_string());
    let asked = Cell::new(0);
    let m = Merger::new().merge(vec![a, b], declining(&asked));
    assert_eq!(m.version, None);
    // version, and the license chosen among all licenses
    assert_eq!(asked.get(), 2);
}

#[test]
fn license_fallback_picks_resolver_choice() {
    let mut a = record("a");
    a.license = Some(License::from_name("something else".to_string()));
    let b = record("b");
    let m = Merger::new().merge(vec![a, b], preferring("MIT"));
    let l = m.license.unwrap();
    assert_eq!(l.name, SupportedLicense::MIT);
    assert_eq!(l.path, None);
}

#[test]
fn license_fallback_defaults_to_unlicense() {
    let asked = Cell::new(0);
    let m = Merger::new().merge(vec![record("a")], declining(&asked));
    assert_eq!(m.license.unwrap().name, SupportedLicense::Unlicense);
    assert_eq!(asked.get(), 1);
}

#[test]
fn merge_of_nothing_is_empty() {
    let m = Merger::new().merge(vec![], declining(&Cell::new(0)));
    assert_eq!(m.name, None);
    assert_eq!(m.description, None);
    assert_eq!(m.version, None);
    assert!(m.repository.is_none());
    assert!(m.contributors.unwrap().0.is_empty());
    assert!(m.dependencies.unwrap().0.is_empty());
    assert!(m.dev_dependencies.unwrap().0.is_empty());
    assert!(m.build_dependencies.unwrap().0.is_empty());
    assert!(m.funding.unwrap().0.is_empty());
    assert!(m.keywords.unwrap().is_empty());
}

#[test]
fn repositories_dedup_by_url() {
    let mut a = record("a");
    a.repository = Some(Repository::new("https://github.com/o/r.git".to_string()));
    let mut b = record("b");
    b.repository = Some(Repository::new("git@github.com:o/r.git".to_string()));
    let asked = Cell::new(0);
    let m = Merger::new().merge(vec![a, b], declining(&asked));
    assert_eq!(m.repository.unwrap().sign.as_deref(), Some("o/r"));
}

#[test]
fn license_file_preferred_over_declaration() {
    let mut manifest = record("/p/package.json");
    manifest.license = Some(License::from_name("MIT".to_string()));
    let mut file = record("/p/LICENSE");
    file.license = Some(License::from_file("/p/LICENSE".to_string(), "MIT License", &None));
    let m = Merger::new().merge(vec![manifest, file], declining(&Cell::new(0)));
    let l = m.license.unwrap();
    assert_eq!(l.name, SupportedLicense::MIT);
    assert_eq!(l.path.as_deref(), Some("/p/LICENSE"));
}

#[test]
fn merge_with_fixed_choices() {
    let mut a = record("a");
    a.description = Some("one".to_string());
    let mut b = record("b");
    b.description = Some("two".to_string());
    let choices = MergeChoices { name: None, description: Some(1), version: None, license: Some(2), repository: None };
    let m = merge_with_choices(&vec![a, b], &choices);
    assert_eq!(m.description.as_deref(), Some("two"));
    assert_eq!(m.license.unwrap().name, SupportedLicense::MIT);
}

#[test]
fn end_to_end_demo_project() {
    let converter = Converter::new();
    let manifest = converter
        .convert(
            "/demo/package.json",
            r#"{"name": "demo", "version": "1.0.0", "license": "MIT"}"#.to_string(),
        )
        .unwrap();
    assert_eq!(manifest.name.as_deref(), Some("demo"));
    let text = "MIT License\n\nCopyright (c) 2024 demo\n\nPermission is hereby granted, free of charge, to any person obtaining a copy\nof this software and associated documentation files (the \"Software\"), to deal\nin the Software without restriction.\n";
    let mut scanned = record("/demo/LICENSE");
    scanned.license = Some(License::from_file("/demo/LICENSE".to_string(), text, &None));
    assert_eq!(scanned.license.as_ref().unwrap().name, SupportedLicense::MIT);
    let asked = Cell::new(0);
    let m = Merger::new().merge(vec![manifest, scanned], declining(&asked));
    assert_eq!(asked.get(), 0);
    assert_eq!(m.name.as_deref(), Some("demo"));
    assert_eq!(m.version.as_deref(), Some("1.0.0"));
    let l = m.license.unwrap();
    assert_eq!(l.name, SupportedLicense::MIT);
    assert_eq!(l.path.as_deref(), Some("/demo/LICENSE"));
}

#[test]
fn same_resolver_same_result() {
    let mut a = record("a");
    a.name = Some("foo".to_string());
    let mut b = record("b");
    b.name = Some("bar".to_string());
    let first = Merger::new().merge(vec![a.clone(), b.clone()], preferring("bar"));
    let second = Merger::new().merge(vec![a, b], preferring("bar"));
    assert_eq!(first.name.as_deref(), Some("bar"));
    assert_eq!(first.name, second.name);
}
