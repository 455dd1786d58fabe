//! The common record that every manifest converts to, and the dispatch from a
//! file name to its format.

use crate::license::{License, LicenseView};
use crate::repository::{Repository, RepositoryView};
use crate::text::{opt_view, trim, trimmed};
use vstd::prelude::*;

verus! {

/// A dependency that a manifest declares.
#[derive(Debug, Clone)]
pub struct Dependency {
    /// The package identifier, the dependency's identity.
    pub name: String,
    /// The version requirement, where one is declared.
    pub version: Option<String>,
}

pub struct DependencyView {
    pub name: Seq<char>,
    pub version: Option<Seq<char>>,
}

impl View for Dependency {
    type V = DependencyView;

    open spec fn view(&self) -> DependencyView {
        DependencyView { name: self.name@, version: opt_view(self.version) }
    }
}

/// The dependencies of one kind, in declaration order.
#[derive(Debug, Clone)]
pub struct Dependencies(pub Vec<Dependency>);

impl View for Dependencies {
    type V = Seq<DependencyView>;

    open spec fn view(&self) -> Seq<DependencyView> {
        self.0@.map_values(|d: Dependency| d@)
    }
}

/// A person who contributed to the project; the email is its identity.
#[derive(Debug, Clone)]
pub struct Contributor {
    pub name: Option<String>,
    pub email: Option<String>,
    pub url: Option<String>,
}

pub struct ContributorView {
    pub name: Option<Seq<char>>,
    pub email: Option<Seq<char>>,
    pub url: Option<Seq<char>>,
}

impl View for Contributor {
    type V = ContributorView;

    open spec fn view(&self) -> ContributorView {
        ContributorView {
            name: opt_view(self.name),
            email: opt_view(self.email),
            url: opt_view(self.url),
        }
    }
}

/// Contributors in the order in which they were found.
#[derive(Debug, Clone)]
pub struct Contributors(pub Vec<Contributor>);

impl View for Contributors {
    type V = Seq<ContributorView>;

    open spec fn view(&self) -> Seq<ContributorView> {
        self.0@.map_values(|c: Contributor| c@)
    }
}

/// The platforms through which a project can be funded.
#[derive(Debug, Clone, Copy, PartialEq, Eq, Structural)]
pub enum FundingType {
    PAYPAL,
    PATREON,
    BITCOIN,
    BuyMeACoffee,
    KOFI,
    GITHUB,
}

/// Every funding platform, in the order in which inference tries them.
pub open spec fn funding_types() -> Seq<FundingType> {
    seq![
        FundingType::PAYPAL,
        FundingType::PATREON,
        FundingType::BITCOIN,
        FundingType::BuyMeACoffee,
        FundingType::KOFI,
        FundingType::GITHUB,
    ]
}

impl FundingType {
    /// The keyword by which the platform is recognised.
    pub open spec fn spec_name(self) -> Seq<char> {
        match self {
            FundingType::PAYPAL => "paypal"@,
            FundingType::PATREON => "patreon"@,
            FundingType::BITCOIN => "bitcoin"@,
            FundingType::BuyMeACoffee => "buymeacoffee"@,
            FundingType::KOFI => "kofi"@,
            FundingType::GITHUB => "github"@,
        }
    }

    pub fn to_string(&self) -> (r: &'static str)
        ensures
            r@ == self.spec_name(),
    {
        match self {
            FundingType::PAYPAL => "paypal",
            FundingType::PATREON => "patreon",
            FundingType::BITCOIN => "bitcoin",
            FundingType::BuyMeACoffee => "buymeacoffee",
            FundingType::KOFI => "kofi",
            FundingType::GITHUB => "github",
        }
    }

    /// Every funding platform, in the order in which inference tries them.
    pub fn all() -> (r: Vec<FundingType>)
        ensures
            r@ == funding_types(),
    {
        let r = vec![
            FundingType::PAYPAL,
            FundingType::PATREON,
            FundingType::BITCOIN,
            FundingType::BuyMeACoffee,
            FundingType::KOFI,
            FundingType::GITHUB,
        ];
        assert(r@ =~= funding_types());
        r
    }

    /// The platform whose keyword is exactly `s`.
    pub fn from_str(s: &str) -> (r: Result<FundingType, FundingError>)
        ensures
            match r {
                Ok(t) => t.spec_name() == s@,
                Err(_) => forall|i: int|
                    0 <= i < funding_types().len() ==> (#[trigger] funding_types()[i]).spec_name()
                        != s@,
            },
    {
        let all = FundingType::all();
        let text = String::from_str(s);
        let mut i: usize = 0;
        while i < all.len()
            invariant
                i <= all@.len(),
                all@ == funding_types(),
                text@ == s@,
                forall|j: int| 0 <= j < i ==> (#[trigger] funding_types()[j]).spec_name() != s@,
            decreases all.len() - i,
        {
            let name = String::from_str(all[i].to_string());
            if name == text {
                return Ok(all[i]);
            }
            i = i + 1;
        }
        Err(FundingError::FundingNotSupported)
    }
}

/// Why a funding entry was not taken.
#[derive(Debug, Clone, Copy, PartialEq, Eq, Structural)]
pub enum FundingError {
    FundingNotSupported,
}

/// How a project can be funded; the url is its identity.
#[derive(Debug, Clone)]
pub struct Funding {
    pub f_type: FundingType,
    pub url: Option<String>,
}

pub struct FundingView {
    pub f_type: FundingType,
    pub url: Option<Seq<char>>,
}

impl View for Funding {
    type V = FundingView;

    open spec fn view(&self) -> FundingView {
        FundingView { f_type: self.f_type, url: opt_view(self.url) }
    }
}

/// Funding entries in the order in which they were found.
#[derive(Debug, Clone)]
pub struct Fundings(pub Vec<Funding>);

impl View for Fundings {
    type V = Seq<FundingView>;

    open spec fn view(&self) -> Seq<FundingView> {
        self.0@.map_values(|f: Funding| f@)
    }
}

/// What one source (a manifest, a license file, the version control) says of
/// the project.
#[derive(Debug, Clone)]
pub struct ConverterOutput {
    /// Where the values were found.
    pub source_config_file_path: String,
    pub name: Option<String>,
    pub description: Option<String>,
    pub version: Option<String>,
    pub contributors: Option<Contributors>,
    pub license: Option<License>,
    pub keywords: Option<Vec<String>>,
    pub repository: Option<Repository>,
    pub dependencies: Option<Dependencies>,
    pub dev_dependencies: Option<Dependencies>,
    pub build_dependencies: Option<Dependencies>,
    pub funding: Option<Fundings>,
}

pub struct RecordView {
    pub source: Seq<char>,
    pub name: Option<Seq<char>>,
    pub description: Option<Seq<char>>,
    pub version: Option<Seq<char>>,
    pub contributors: Option<Seq<ContributorView>>,
    pub license: Option<LicenseView>,
    pub keywords: Option<Seq<Seq<char>>>,
    pub repository: Option<RepositoryView>,
    pub dependencies: Option<Seq<DependencyView>>,
    pub dev_dependencies: Option<Seq<DependencyView>>,
    pub build_dependencies: Option<Seq<DependencyView>>,
    pub funding: Option<Seq<FundingView>>,
}

pub open spec fn strings_view(v: Vec<String>) -> Seq<Seq<char>> {
    v@.map_values(|s: String| s@)
}

impl View for ConverterOutput {
    type V = RecordView;

    open spec fn view(&self) -> RecordView {
        RecordView {
            source: self.source_config_file_path@,
            name: opt_view(self.name),
            description: opt_view(self.description),
            version: opt_view(self.version),
            contributors: match self.contributors {
                Some(c) => Some(c@),
                None => None,
            },
            license: match self.license {
                Some(l) => Some(l@),
                None => None,
            },
            keywords: match self.keywords {
                Some(k) => Some(strings_view(k)),
                None => None,
            },
            repository: match self.repository {
                Some(r) => Some(r@),
                None => None,
            },
            dependencies: match self.dependencies {
                Some(d) => Some(d@),
                None => None,
            },
            dev_dependencies: match self.dev_dependencies {
                Some(d) => Some(d@),
                None => None,
            },
            build_dependencies: match self.build_dependencies {
                Some(d) => Some(d@),
                None => None,
            },
            funding: match self.funding {
                Some(f) => Some(f@),
                None => None,
            },
        }
    }
}

/// A record from `source` with every field absent.
pub open spec fn empty_record(source: Seq<char>) -> RecordView {
    RecordView {
        source,
        name: None,
        description: None,
        version: None,
        contributors: None,
        license: None,
        keywords: None,
        repository: None,
        dependencies: None,
        dev_dependencies: None,
        build_dependencies: None,
        funding: None,
    }
}

pub open spec fn opt_trimmed(o: Option<Seq<char>>) -> Option<Seq<char>> {
    match o {
        Some(s) => Some(trimmed(s)),
        None => None,
    }
}

fn trim_opt(o: Option<String>) -> (r: Option<String>)
    ensures
        opt_view(r) == opt_trimmed(opt_view(o)),
{
    match o {
        Some(s) => Some(trim(s)),
        None => None,
    }
}

impl ConverterOutput {
    /// A record with no source and every field absent.
    pub fn empty() -> (r: ConverterOutput)
        ensures
            r@ == empty_record(Seq::empty()),
    {
        ConverterOutput {
            source_config_file_path: String::new(),
            name: None,
            description: None,
            version: None,
            contributors: None,
            license: None,
            keywords: None,
            repository: None,
            dependencies: None,
            dev_dependencies: None,
            build_dependencies: None,
            funding: None,
        }
    }

    /// Trims the name, description and version.
    pub fn trim(&mut self)
        ensures
            final(self)@ == (RecordView {
                name: opt_trimmed(old(self)@.name),
                description: opt_trimmed(old(self)@.description),
                version: opt_trimmed(old(self)@.version),
                ..old(self)@
            }),
    {
        self.name = trim_opt(self.name.take());
        self.description = trim_opt(self.description.take());
        self.version = trim_opt(self.version.take());
    }
}

} // verus!
