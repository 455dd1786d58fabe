use writeme::converter::{ConverterOutput, FundingType};
use writeme::dispatch::{scan_configs, Converter, SupportedFile};
use writeme::license::SupportedLicense;
use writeme::manifests::{CargoToml, ComposerJson, ConvertError, PackageJson};
use writeme::node::{parse_json, parse_toml, Node};
use writeme::parts::{infer_funding_type, parse_person};
use writeme::repository::RepositoryPlatform;

#[test]
fn package_json_fields() {
    let text = r#"{
        "name": "demo",
        "version": "1.0.0",
        "description": "  A demo  ",
        "license": "MIT",
        "keywords": ["cli", "", "docs"],
        "author": {"name": "Ann", "email": "ann@x.io"},
        "repository": {"type": "git", "url": "https://github.com/ann/demo.git"},
        "dependencies": {"left-pad": "^1.0.0", "local": "", "bad": 3},
        "devDependencies": {"jest": "29"},
        "funding": "https://www.patreon.com/ann"
    }"#;
    let out = PackageJson::new().convert("/p/package.json".to_string(), text.to_string()).unwrap();
    assert_eq!(out.source_config_file_path, "/p/package.json");
    assert_eq!(out.name.as_deref(), Some("demo"));
    assert_eq!(out.version.as_deref(), Some("1.0.0"));
    assert_eq!(out.description.as_deref(), Some("A demo"));
    assert_eq!(out.license.as_ref().unwrap().name, SupportedLicense::MIT);
    assert_eq!(out.keywords.clone().unwrap(), vec!["cli".to_string(), "docs".to_string()]);
    let c = out.contributors.clone().unwrap().0;
    assert_eq!(c.len(), 1);
    assert_eq!(c[0].email.as_deref(), Some("ann@x.io"));
    let repo = out.repository.clone().unwrap();
    assert_eq!(repo.platform, RepositoryPlatform::Github);
    assert_eq!(repo.sign.as_deref(), Some("ann/demo"));
    let deps = out.dependencies.clone().unwrap().0;
    assert_eq!(deps.len(), 2);
    assert_eq!(deps[0].name, "left-pad");
    assert_eq!(deps[0].version.as_deref(), Some("^1.0.0"));
    assert_eq!(deps[1].name, "local");
    assert_eq!(deps[1].version, None);
    assert_eq!(out.dev_dependencies.clone().unwrap().0.len(), 1);
    assert!(out.build_dependencies.is_none());
    let f = out.funding.clone().unwrap().0;
    assert_eq!(f.len(), 1);
    assert_eq!(f[0].f_type, FundingType::PATREON);
}

#[test]
fn package_json_missing_and_empty_fields() {
    let out = PackageJson::new()
        .convert("package.json".to_string(), r#"{"name": "", "version": null}"#.to_string())
        .unwrap();
    assert_eq!(out.name, None);
    assert_eq!(out.version, None);
    assert!(out.license.is_none());
    assert!(out.dependencies.is_none());
}

#[test]
fn package_json_contributor_list() {
    // package.json contributors are objects; a string is dropped
    let text = r#"{"contributors": ["Bob <bob@y.io> (https://bob.dev)", {"name": "Cy", "url": "https://cy.dev"}, 7]}"#;
    let out = PackageJson::new().convert("package.json".to_string(), text.to_string()).unwrap();
    let c = out.contributors.unwrap().0;
    assert_eq!(c.len(), 1);
    assert_eq!(c[0].name.as_deref(), Some("Cy"));
    assert_eq!(c[0].email, None);
    assert_eq!(c[0].url.as_deref(), Some("https://cy.dev"));
    let author = PackageJson::new()
        .convert("package.json".to_string(), r#"{"author": "Ann <a@x>"}"#.to_string())
        .unwrap();
    assert!(author.contributors.is_none());
}

#[test]
fn malformed_manifests_fail() {
    assert_eq!(
        PackageJson::new().convert("package.json".to_string(), "{ not json".to_string()).unwrap_err(),
        ConvertError::Malformed
    );
    assert_eq!(
        CargoToml::new().convert("Cargo.toml".to_string(), "[package\nname=".to_string()).unwrap_err(),
        ConvertError::Malformed
    );
}

#[test]
fn composer_json_fields() {
    let text = r#"{
        "name": "vendor/pkg",
        "description": "A package",
        "license": "Apache-2.0",
        "authors": [{"name": "Dee", "email": "dee@z.io", "homepage": "https://dee.dev"}, "Eve <e@z.io>"],
        "require": {"php": ">=8.0"},
        "require-dev": {"phpunit/phpunit": "^10"},
        "funding": [{"type": "github", "url": "https://github.com/sponsors/dee"}, {"type": "other", "url": "https://example.com"}]
    }"#;
    let out = ComposerJson::new().convert("composer.json".to_string(), text.to_string()).unwrap();
    assert_eq!(out.name.as_deref(), Some("vendor/pkg"));
    assert_eq!(out.license.as_ref().unwrap().name, SupportedLicense::Apache20);
    let a = out.contributors.unwrap().0;
    assert_eq!(a.len(), 1);
    assert_eq!(a[0].url.as_deref(), Some("https://dee.dev"));
    assert_eq!(out.dependencies.unwrap().0[0].name, "php");
    assert_eq!(out.dev_dependencies.unwrap().0[0].version.as_deref(), Some("^10"));
    let f = out.funding.unwrap().0;
    assert_eq!(f.len(), 1);
    assert_eq!(f[0].f_type, FundingType::GITHUB);
    assert_eq!(f[0].url.as_deref(), Some("https://github.com/sponsors/dee"));
}

#[test]
fn cargo_toml_fields() {
    let text = r#"
[package]
name = "tool"
version = "0.3.1"
authors = ["Eve <eve@w.io> (https://eve.dev)", { name = "Table" }]
license = "MIT OR Apache-2.0"
repository = "https://github.com/eve/tool"
keywords = ["cli"]

[dependencies]
serde = "1"
local = { path = "../local" }
regex = { version = "1.9", default-features = false }

[build-dependencies]
cc = "1"
odd = 5
"#;
    let out = CargoToml::new().convert("Cargo.toml".to_string(), text.to_string()).unwrap();
    assert_eq!(out.name.as_deref(), Some("tool"));
    assert_eq!(out.version.as_deref(), Some("0.3.1"));
    // the first license in declaration order that the text names
    assert_eq!(out.license.as_ref().unwrap().name, SupportedLicense::Apache20);
    // Cargo authors are strings; a table is dropped
    let authors = out.contributors.unwrap().0;
    assert_eq!(authors.len(), 1);
    assert_eq!(authors[0].name.as_deref(), Some("Eve"));
    assert_eq!(authors[0].email.as_deref(), Some("eve@w.io"));
    assert_eq!(authors[0].url.as_deref(), Some("https://eve.dev"));
    assert_eq!(out.repository.unwrap().name.as_deref(), Some("tool"));
    let deps = out.dependencies.unwrap().0;
    assert_eq!(deps.len(), 3);
    let local = deps.iter().find(|d| d.name == "local").unwrap();
    assert_eq!(local.version, None);
    let regex = deps.iter().find(|d| d.name == "regex").unwrap();
    assert_eq!(regex.version.as_deref(), Some("1.9"));
    assert_eq!(out.build_dependencies.unwrap().0.len(), 1);
    assert!(out.dev_dependencies.is_none());
    assert!(out.funding.is_none());
}

#[test]
fn dispatch_by_file_name() {
    let c = Converter::new();
    let out = c.convert("/x/y/package.json", r#"{"name": "a"}"#.to_string()).unwrap();
    assert_eq!(out.name.as_deref(), Some("a"));
    assert_eq!(c.convert("/x/y/setup.py", String::new()).unwrap_err(), ConvertError::UnsupportedFile);
    assert_eq!(c.convert("/x/y/", String::new()).unwrap_err(), ConvertError::FileNotFound);
    assert_eq!(Converter::get_filename("/a/b/Cargo.toml").as_deref(), Some("Cargo.toml"));
    assert_eq!(SupportedFile::from_str("composer.json").unwrap(), SupportedFile::ComposerJson);
    assert_eq!(SupportedFile::CargoToml.to_string(), "Cargo.toml");
}

#[test]
fn scan_configs_keeps_manifests() {
    let paths = vec![
        "/p/package.json".to_string(),
        "/p/src/main.rs".to_string(),
        "/p/sub/Cargo.toml".to_string(),
        "/p/my-package.json".to_string(),
    ];
    assert_eq!(scan_configs(&paths), vec!["/p/package.json".to_string(), "/p/sub/Cargo.toml".to_string()]);
}

#[test]
fn person_strings() {
    let p = parse_person("Name Here <me@x.io>");
    assert_eq!(p.name.as_deref(), Some("Name Here"));
    assert_eq!(p.email.as_deref(), Some("me@x.io"));
    assert_eq!(p.url, None);
    let q = parse_person("solo");
    assert_eq!(q.name.as_deref(), Some("solo"));
    assert_eq!(q.email, None);
}

#[test]
fn funding_inference_order() {
    assert_eq!(
        infer_funding_type(&Some("https://paypal.me/x".to_string()), &None),
        Some(FundingType::PAYPAL)
    );
    assert_eq!(infer_funding_type(&Some("https://example.com".to_string()), &None), None);
    assert_eq!(
        infer_funding_type(&Some("https://example.com".to_string()), &Some("kofi".to_string())),
        Some(FundingType::KOFI)
    );
    assert!(FundingType::from_str("bitcoin").is_ok());
    assert!(FundingType::from_str("cash").is_err());
    assert_eq!(FundingType::BuyMeACoffee.to_string(), "buymeacoffee");
}

#[test]
fn parse_wrappers_build_trees() {
    match parse_json(r#"{"a": [1, "x"]}"#) {
        Some(Node::Table(entries)) => {
            assert_eq!(entries[0].0, "a");
            match &entries[0].1 {
                Node::Array(items) => assert_eq!(items.len(), 2),
                _ => panic!("expected an array"),
            }
        }
        _ => panic!("expected a table"),
    }
    assert!(parse_json("[").is_none());
    match parse_toml("x = \"y\"") {
        Some(Node::Table(entries)) => assert_eq!(entries.len(), 1),
        _ => panic!("expected a table"),
    }
}

#[test]
fn empty_and_trim_record() {
    let mut r = ConverterOutput::empty();
    assert_eq!(r.source_config_file_path, "");
    assert!(r.name.is_none() && r.license.is_none() && r.funding.is_none());
    r.name = Some("  \"n\" ".to_string());
    r.trim();
    assert_eq!(r.name.as_deref(), Some("n"));
}
