//! The manifest formats: `package.json`, `composer.json` and `Cargo.toml`.

use crate::converter::{
    ContributorView, Contributors, ConverterOutput, FundingView, Fundings, RecordView,
};
use crate::license::{classify, License, LicenseView};
use crate::node::{json_document, member, member_of, opt_node, parse_json, parse_toml, text_of,
    toml_document, Node,
};
use crate::parts::{
    contributor_list, contributor_of, ContributorShape, dependency_list, field, field_text, funding_list, funding_of,
    keyword_list, parse_contributor, parse_contributors, parse_dependencies, parse_funding,
    parse_fundings, parse_keywords,
};
use crate::repository::{parse_repository, Repository, RepositoryView};
use vstd::prelude::*;

verus! {

/// Why a file could not be converted.
#[derive(Debug, Clone, Copy, PartialEq, Eq, Structural)]
pub enum ConvertError {
    /// The file name is not one of a supported manifest.
    UnsupportedFile,
    /// The path has no file name.
    FileNotFound,
    /// The text is not valid in the manifest's syntax.
    Malformed,
}

pub open spec fn license_field(n: Option<Node>) -> Option<LicenseView> {
    match field_text(n) {
        Some(t) => Some(LicenseView { name: classify(t), path: None, url: None }),
        None => None,
    }
}

/// A repository given as an address, or as a table with a `url`.
pub open spec fn repository_field(n: Option<Node>) -> Option<RepositoryView> {
    let u = match n {
        Some(Node::Table(_)) => text_of(member(n->0, "url"@)),
        Some(Node::Str(_)) => text_of(n),
        _ => None,
    };
    match u {
        Some(a) => Some(parse_repository(a)),
        None => None,
    }
}

pub open spec fn keywords_field(n: Option<Node>) -> Option<Seq<Seq<char>>> {
    match n {
        Some(Node::Array(items)) => Some(keyword_list(items@)),
        _ => None,
    }
}

pub open spec fn contributors_field(
    n: Option<Node>,
    shape: ContributorShape,
    url_key: Seq<char>,
) -> Option<Seq<ContributorView>> {
    match n {
        Some(Node::Array(items)) => Some(contributor_list(items@, shape, url_key)),
        _ => None,
    }
}

pub open spec fn funding_array(n: Option<Node>) -> Option<Seq<FundingView>> {
    match n {
        Some(Node::Array(items)) => Some(funding_list(items@)),
        _ => None,
    }
}

fn license_at(n: Option<&Node>) -> (r: Option<License>)
    ensures
        match r {
            Some(l) => license_field(opt_node(n)) == Some(l@),
            None => license_field(opt_node(n)) is None,
        },
{
    match n {
        Some(x) => match x {
            Node::Str(_) => {
                let t = match x {
                    Node::Str(s) => if s.unicode_len() > 0 {
                        let t = crate::text::trim(s.clone());
                        if t.as_str().unicode_len() > 0 {
                            Some(t)
                        } else {
                            None
                        }
                    } else {
                        None
                    },
                    _ => None,
                };
                match t {
                    Some(t) => Some(License::from_name(t)),
                    None => None,
                }
            },
            _ => None,
        },
        None => None,
    }
}

fn repository_at(n: Option<&Node>) -> (r: Option<Repository>)
    ensures
        match r {
            Some(x) => repository_field(opt_node(n)) == Some(x@),
            None => repository_field(opt_node(n)) is None,
        },
{
    let u = match n {
        Some(x) => match x {
            Node::Table(_) => x.text("url"),
            Node::Str(s) => if s.unicode_len() > 0 {
                Some(s.clone())
            } else {
                None
            },
            _ => None,
        },
        None => None,
    };
    match u {
        Some(a) => Some(Repository::new(a)),
        None => None,
    }
}

fn keywords_at(n: Option<&Node>) -> (r: Option<Vec<String>>)
    ensures
        match r {
            Some(k) => keywords_field(opt_node(n)) == Some(crate::converter::strings_view(k)),
            None => keywords_field(opt_node(n)) is None,
        },
{
    match n {
        Some(Node::Array(items)) => Some(parse_keywords(items)),
        _ => None,
    }
}

fn contributors_at(n: Option<&Node>, shape: ContributorShape, url_key: &str) -> (r: Option<
    Contributors,
>)
    ensures
        match r {
            Some(c) => contributors_field(opt_node(n), shape, url_key@) == Some(c@),
            None => contributors_field(opt_node(n), shape, url_key@) is None,
        },
{
    match n {
        Some(Node::Array(items)) => Some(parse_contributors(items, shape, url_key)),
        _ => None,
    }
}

fn funding_array_at(n: Option<&Node>) -> (r: Option<Fundings>)
    ensures
        match r {
            Some(f) => funding_array(opt_node(n)) == Some(f@),
            None => funding_array(opt_node(n)) is None,
        },
{
    match n {
        Some(Node::Array(items)) => Some(parse_fundings(items)),
        _ => None,
    }
}

/// The record of a `package.json` document.
pub open spec fn package_record(path: Seq<char>, root: Node) -> RecordView {
    RecordView {
        source: path,
        name: field_text(member(root, "name"@)),
        description: field_text(member(root, "description"@)),
        version: field_text(member(root, "version"@)),
        contributors: package_contributors(root),
        license: license_field(member(root, "license"@)),
        keywords: keywords_field(member(root, "keywords"@)),
        repository: repository_field(member(root, "repository"@)),
        dependencies: dependency_list(member(root, "dependencies"@)),
        dev_dependencies: dependency_list(member(root, "devDependencies"@)),
        build_dependencies: None,
        funding: package_funding(member(root, "funding"@)),
    }
}

/// The `contributors` list of tables; failing that, the `author` table alone.
pub open spec fn package_contributors(root: Node) -> Option<Seq<ContributorView>> {
    match member(root, "contributors"@) {
        Some(Node::Array(items)) => Some(contributor_list(items@, ContributorShape::Table, "url"@)),
        _ => match member(root, "author"@) {
            Some(a) => match contributor_of(a, ContributorShape::Table, "url"@) {
                Some(c) => Some(seq![c]),
                None => None,
            },
            None => None,
        },
    }
}

/// A list of funding entries, or a single one.
pub open spec fn package_funding(n: Option<Node>) -> Option<Seq<FundingView>> {
    match n {
        Some(Node::Array(items)) => Some(funding_list(items@)),
        Some(x) => match funding_of(x) {
            Some(f) => Some(seq![f]),
            None => None,
        },
        None => None,
    }
}

/// The `package.json` format.
pub struct PackageJson {}

impl PackageJson {
    pub fn new() -> (r: PackageJson) {
        PackageJson {  }
    }

    fn contributors(root: &Node) -> (r: Option<Contributors>)
        ensures
            match r {
                Some(c) => package_contributors(*root) == Some(c@),
                None => package_contributors(*root) is None,
            },
    {
        match root.get("contributors") {
            Some(Node::Array(items)) => Some(parse_contributors(items, ContributorShape::Table, "url")),
            _ => match root.get("author") {
                Some(a) => match parse_contributor(a, ContributorShape::Table, "url") {
                    Some(c) => {
                        let v = Contributors(vec![c]);
                        assert(v@ =~= seq![c@]);
                        Some(v)
                    },
                    None => None,
                },
                None => None,
            },
        }
    }

    fn funding(n: Option<&Node>) -> (r: Option<Fundings>)
        ensures
            match r {
                Some(f) => package_funding(opt_node(n)) == Some(f@),
                None => package_funding(opt_node(n)) is None,
            },
    {
        match n {
            Some(Node::Array(items)) => Some(parse_fundings(items)),
            Some(x) => match parse_funding(x) {
                Some(f) => {
                    let v = Fundings(vec![f]);
                    assert(v@ =~= seq![f@]);
                    Some(v)
                },
                None => None,
            },
            None => None,
        }
    }

    /// Converts the text of a `package.json` found at `file_path`.
    pub fn convert(&self, file_path: String, file_contents: String) -> (r: Result<
        ConverterOutput,
        ConvertError,
    >)
        ensures
            match r {
                Ok(o) => json_document(file_contents@) is Some && o@ == package_record(
                    file_path@,
                    json_document(file_contents@)->0,
                ),
                Err(e) => json_document(file_contents@) is None && e == ConvertError::Malformed,
            },
    {
        let root = match parse_json(file_contents.as_str()) {
            Some(n) => n,
            None => return Err(ConvertError::Malformed),
        };
        let out = ConverterOutput {
            source_config_file_path: file_path,
            name: field(&root, "name"),
            description: field(&root, "description"),
            version: field(&root, "version"),
            contributors: PackageJson::contributors(&root),
            license: license_at(root.get("license")),
            keywords: keywords_at(root.get("keywords")),
            repository: repository_at(root.get("repository")),
            dependencies: parse_dependencies(root.get("dependencies")),
            dev_dependencies: parse_dependencies(root.get("devDependencies")),
            build_dependencies: None,
            funding: PackageJson::funding(root.get("funding")),
        };
        Ok(out)
    }
}

/// The record of a `composer.json` document.
pub open spec fn composer_record(path: Seq<char>, root: Node) -> RecordView {
    RecordView {
        source: path,
        name: field_text(member(root, "name"@)),
        description: field_text(member(root, "description"@)),
        version: field_text(member(root, "version"@)),
        contributors: contributors_field(member(root, "authors"@), ContributorShape::Table, "homepage"@),
        license: license_field(member(root, "license"@)),
        keywords: keywords_field(member(root, "keywords"@)),
        repository: repository_field(member(root, "repository"@)),
        dependencies: dependency_list(member(root, "require"@)),
        dev_dependencies: dependency_list(member(root, "require-dev"@)),
        build_dependencies: None,
        funding: funding_array(member(root, "funding"@)),
    }
}

/// The `composer.json` format.
pub struct ComposerJson {}

impl ComposerJson {
    pub fn new() -> (r: ComposerJson) {
        ComposerJson {  }
    }

    /// Converts the text of a `composer.json` found at `file_path`.
    pub fn convert(&self, file_path: String, file_contents: String) -> (r: Result<
        ConverterOutput,
        ConvertError,
    >)
        ensures
            match r {
                Ok(o) => json_document(file_contents@) is Some && o@ == composer_record(
                    file_path@,
                    json_document(file_contents@)->0,
                ),
                Err(e) => json_document(file_contents@) is None && e == ConvertError::Malformed,
            },
    {
        let root = match parse_json(file_contents.as_str()) {
            Some(n) => n,
            None => return Err(ConvertError::Malformed),
        };
        let out = ConverterOutput {
            source_config_file_path: file_path,
            name: field(&root, "name"),
            description: field(&root, "description"),
            version: field(&root, "version"),
            contributors: contributors_at(root.get("authors"), ContributorShape::Table, "homepage"),
            license: license_at(root.get("license")),
            keywords: keywords_at(root.get("keywords")),
            repository: repository_at(root.get("repository")),
            dependencies: parse_dependencies(root.get("require")),
            dev_dependencies: parse_dependencies(root.get("require-dev")),
            build_dependencies: None,
            funding: funding_array_at(root.get("funding")),
        };
        Ok(out)
    }
}

/// The record of a `Cargo.toml` document: package fields under `[package]`.
pub open spec fn cargo_record(path: Seq<char>, root: Node) -> RecordView {
    let package = member(root, "package"@);
    RecordView {
        source: path,
        name: field_text(member_of(package, "name"@)),
        description: field_text(member_of(package, "description"@)),
        version: field_text(member_of(package, "version"@)),
        contributors: contributors_field(member_of(package, "authors"@), ContributorShape::Text, "url"@),
        license: license_field(member_of(package, "license"@)),
        keywords: keywords_field(member_of(package, "keywords"@)),
        repository: match field_text(member_of(package, "repository"@)) {
            Some(u) => Some(parse_repository(u)),
            None => None,
        },
        dependencies: dependency_list(member(root, "dependencies"@)),
        dev_dependencies: dependency_list(member(root, "dev-dependencies"@)),
        build_dependencies: dependency_list(member(root, "build-dependencies"@)),
        funding: None,
    }
}

/// The `Cargo.toml` format.
pub struct CargoToml {}

impl CargoToml {
    pub fn new() -> (r: CargoToml) {
        CargoToml {  }
    }

    /// Converts the text of a `Cargo.toml` found at `file_path`.
    pub fn convert(&self, file_path: String, file_contents: String) -> (r: Result<
        ConverterOutput,
        ConvertError,
    >)
        ensures
            match r {
                Ok(o) => toml_document(file_contents@) is Some && o@ == cargo_record(
                    file_path@,
                    toml_document(file_contents@)->0,
                ),
                Err(e) => toml_document(file_contents@) is None && e == ConvertError::Malformed,
            },
    {
        let root = match parse_toml(file_contents.as_str()) {
            Some(n) => n,
            None => return Err(ConvertError::Malformed),
        };
        let package = root.get("package");
        let (name, description, version, repository) = match package {
            Some(p) => {
                let repository = match field(p, "repository") {
                    Some(u) => Some(Repository::new(u)),
                    None => None,
                };
                (field(p, "name"), field(p, "description"), field(p, "version"), repository)
            },
            None => (None, None, None, None),
        };
        let (contributors, license, keywords) = match package {
            Some(p) => (
                contributors_at(p.get("authors"), ContributorShape::Text, "url"),
                license_at(p.get("license")),
                keywords_at(p.get("keywords")),
            ),
            None => (None, None, None),
        };
        let out = ConverterOutput {
            source_config_file_path: file_path,
            name,
            description,
            version,
            contributors,
            license,
            keywords,
            repository,
            dependencies: parse_dependencies(root.get("dependencies")),
            dev_dependencies: parse_dependencies(root.get("dev-dependencies")),
            build_dependencies: parse_dependencies(root.get("build-dependencies")),
            funding: None,
        };
        Ok(out)
    }
}

} // verus!
