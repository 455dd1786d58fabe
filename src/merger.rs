//! Reconciling the records of several sources into one.

use crate::converter::{
    Contributor, Contributors, ConverterOutput, Dependencies, Dependency, Funding, Fundings,
    RecordView,
};
use crate::license::{all_licenses, License, SupportedLicense};
use crate::repository::Repository;
use crate::text::opt_view;
use vstd::prelude::*;

verus! {

/// A value offered for a field, with a label that says where it comes from.
#[derive(Debug, Clone)]
pub struct SelectOption<T> {
    pub name: String,
    pub value: T,
}

/// The (label, value) texts of options.
pub open spec fn options_view(o: Seq<SelectOption<String>>) -> Seq<(Seq<char>, Seq<char>)> {
    o.map_values(|x: SelectOption<String>| (x.name@, x.value@))
}

/// Picks the first option, where there is one.
pub fn first_option(field_name: String, options: Vec<SelectOption<String>>) -> (r: Option<usize>)
    ensures
        r == (if options@.len() > 0 {
            Some(0usize)
        } else {
            None
        }),
{
    if options.len() > 0 {
        Some(0)
    } else {
        None
    }
}

/// The first index from `i` on whose option has value `v`.
pub open spec fn value_index(options: Seq<(Seq<char>, Seq<char>)>, v: Seq<char>, i: int) -> Option<usize>
    decreases options.len() - i,
{
    if i < 0 || i >= options.len() {
        None
    } else if options[i].1 == v {
        Some(i as usize)
    } else {
        value_index(options, v, i + 1)
    }
}

/// Picks the first option whose value is `value`, or none.
pub fn prefer_value(value: &str, options: &Vec<SelectOption<String>>) -> (r: Option<usize>)
    ensures
        r == value_index(options_view(options@), value@, 0),
{
    let v = String::from_str(value);
    let mut i: usize = 0;
    while i < options.len()
        invariant
            i <= options@.len(),
            v@ == value@,
            value_index(options_view(options@), value@, 0) == value_index(
                options_view(options@),
                value@,
                i as int,
            ),
        decreases options.len() - i,
    {
        if options[i].value.eq(&v) {
            return Some(i);
        }
        i = i + 1;
    }
    None
}

/// Values that have an identity by which duplicates are recognised.
pub trait Keyed: Sized {
    spec fn key(&self) -> Option<Seq<char>>;

    fn same_key(&self, other: &Self) -> (r: bool)
        ensures
            r == (self.key() == other.key());

    fn duplicate(&self) -> (r: Self)
        ensures
            r == *self;
}

fn same_text(a: &Option<String>, b: &Option<String>) -> (r: bool)
    ensures
        r == (opt_view(*a) == opt_view(*b)),
{
    match (a, b) {
        (Some(x), Some(y)) => x.eq(y),
        (None, None) => true,
        _ => false,
    }
}

impl Keyed for Contributor {
    open spec fn key(&self) -> Option<Seq<char>> {
        opt_view(self.email)
    }

    fn same_key(&self, other: &Self) -> (r: bool) {
        same_text(&self.email, &other.email)
    }

    fn duplicate(&self) -> (r: Self) {
        Contributor { name: self.name.clone(), email: self.email.clone(), url: self.url.clone() }
    }
}

impl Keyed for Dependency {
    open spec fn key(&self) -> Option<Seq<char>> {
        Some(self.name@)
    }

    fn same_key(&self, other: &Self) -> (r: bool) {
        self.name.eq(&other.name)
    }

    fn duplicate(&self) -> (r: Self) {
        Dependency { name: self.name.clone(), version: self.version.clone() }
    }
}

impl Keyed for Funding {
    open spec fn key(&self) -> Option<Seq<char>> {
        opt_view(self.url)
    }

    fn same_key(&self, other: &Self) -> (r: bool) {
        same_text(&self.url, &other.url)
    }

    fn duplicate(&self) -> (r: Self) {
        Funding { f_type: self.f_type, url: self.url.clone() }
    }
}

impl Keyed for String {
    open spec fn key(&self) -> Option<Seq<char>> {
        Some(self@)
    }

    fn same_key(&self, other: &Self) -> (r: bool) {
        self.eq(other)
    }

    fn duplicate(&self) -> (r: Self) {
        self.clone()
    }
}

pub open spec fn has_key<T: Keyed>(s: Seq<T>, k: Option<Seq<char>>) -> bool {
    exists|j: int| 0 <= j < s.len() && (#[trigger] s[j]).key() == k
}

/// `acc` followed by the items of `s` whose key is not yet there, in order.
pub open spec fn unique_extend<T: Keyed>(acc: Seq<T>, s: Seq<T>) -> Seq<T>
    decreases s.len(),
{
    if s.len() == 0 {
        acc
    } else {
        let prev = unique_extend(acc, s.drop_last());
        if has_key(prev, s.last().key()) {
            prev
        } else {
            prev.push(s.last())
        }
    }
}

/// The first item of each key of `s`, in order.
pub open spec fn unique_by_key<T: Keyed>(s: Seq<T>) -> Seq<T> {
    unique_extend(Seq::empty(), s)
}

pub proof fn lemma_unique_extend_concat<T: Keyed>(acc: Seq<T>, a: Seq<T>, b: Seq<T>)
    ensures
        unique_extend(unique_extend(acc, a), b) == unique_extend(acc, a + b),
    decreases b.len(),
{
    if b.len() == 0 {
        assert(a + b =~= a);
    } else {
        lemma_unique_extend_concat(acc, a, b.drop_last());
        assert((a + b).drop_last() =~= a + b.drop_last());
        assert((a + b).last() == b.last());
    }
}

/// Appends to `out` the items of `items` whose key it does not hold yet.
pub fn extend_unique<T: Keyed>(out: &mut Vec<T>, items: &Vec<T>)
    ensures
        final(out)@ == unique_extend(old(out)@, items@),
{
    let ghost start = out@;
    let mut i: usize = 0;
    while i < items.len()
        invariant
            i <= items@.len(),
            out@ == unique_extend(start, items@.subrange(0, i as int)),
        decreases items.len() - i,
    {
        assert(items@.subrange(0, i + 1).drop_last() =~= items@.subrange(0, i as int));
        let mut j: usize = 0;
        let mut found = false;
        while j < out.len()
            invariant
                j <= out@.len(),
                i < items@.len(),
                !found ==> forall|k: int| 0 <= k < j ==> (#[trigger] out@[k]).key() != items@[i as int].key(),
                found ==> has_key(out@, items@[i as int].key()),
            decreases out.len() - j,
        {
            if out[j].same_key(&items[i]) {
                found = true;
            }
            j = j + 1;
        }
        if !found {
            out.push(items[i].duplicate());
        }
        i = i + 1;
    }
    assert(items@.subrange(0, items@.len() as int) =~= items@);
}

/// The items that `get` selects from each record, all records in order.
pub open spec fn gather<T>(recs: Seq<ConverterOutput>, get: spec_fn(ConverterOutput) -> Seq<T>) -> Seq<T>
    decreases recs.len(),
{
    if recs.len() == 0 {
        Seq::empty()
    } else {
        gather(recs.drop_last(), get) + get(recs.last())
    }
}

pub open spec fn contributors_in(r: ConverterOutput) -> Seq<Contributor> {
    match r.contributors {
        Some(c) => c.0@,
        None => Seq::empty(),
    }
}

pub open spec fn dependencies_in(r: ConverterOutput) -> Seq<Dependency> {
    match r.dependencies {
        Some(d) => d.0@,
        None => Seq::empty(),
    }
}

pub open spec fn dev_dependencies_in(r: ConverterOutput) -> Seq<Dependency> {
    match r.dev_dependencies {
        Some(d) => d.0@,
        None => Seq::empty(),
    }
}

pub open spec fn build_dependencies_in(r: ConverterOutput) -> Seq<Dependency> {
    match r.build_dependencies {
        Some(d) => d.0@,
        None => Seq::empty(),
    }
}

pub open spec fn funding_in(r: ConverterOutput) -> Seq<Funding> {
    match r.funding {
        Some(f) => f.0@,
        None => Seq::empty(),
    }
}

pub open spec fn keywords_in(r: ConverterOutput) -> Seq<String> {
    match r.keywords {
        Some(k) => k@,
        None => Seq::empty(),
    }
}

pub open spec fn contributors_sel() -> spec_fn(ConverterOutput) -> Seq<Contributor> {
    |r: ConverterOutput| contributors_in(r)
}

pub open spec fn dependencies_sel() -> spec_fn(ConverterOutput) -> Seq<Dependency> {
    |r: ConverterOutput| dependencies_in(r)
}

pub open spec fn dev_dependencies_sel() -> spec_fn(ConverterOutput) -> Seq<Dependency> {
    |r: ConverterOutput| dev_dependencies_in(r)
}

pub open spec fn build_dependencies_sel() -> spec_fn(ConverterOutput) -> Seq<Dependency> {
    |r: ConverterOutput| build_dependencies_in(r)
}

pub open spec fn funding_sel() -> spec_fn(ConverterOutput) -> Seq<Funding> {
    |r: ConverterOutput| funding_in(r)
}

pub open spec fn keywords_sel() -> spec_fn(ConverterOutput) -> Seq<String> {
    |r: ConverterOutput| keywords_in(r)
}

/// The single-valued text fields of a record.
#[derive(Debug, Clone, Copy, PartialEq, Eq, Structural)]
pub enum ScalarField {
    Name,
    Description,
    Version,
}

pub open spec fn scalar_of(r: ConverterOutput, f: ScalarField) -> Option<String> {
    match f {
        ScalarField::Name => r.name,
        ScalarField::Description => r.description,
        ScalarField::Version => r.version,
    }
}

pub open spec fn has_text(c: Seq<SelectOption<String>>, v: Seq<char>) -> bool {
    exists|j: int| 0 <= j < c.len() && (#[trigger] c[j]).value@ == v
}

/// The distinct values that are not empty of field `f`, each with the source
/// that gave it first, in order.
pub open spec fn text_candidates(recs: Seq<ConverterOutput>, f: ScalarField) -> Seq<
    SelectOption<String>,
>
    decreases recs.len(),
{
    if recs.len() == 0 {
        Seq::empty()
    } else {
        let prev = text_candidates(recs.drop_last(), f);
        match scalar_of(recs.last(), f) {
            Some(v) => if v@.len() > 0 && !has_text(prev, v@) {
                prev.push(SelectOption { name: recs.last().source_config_file_path, value: v })
            } else {
                prev
            },
            None => prev,
        }
    }
}

/// The candidate that a field takes: none of none, the only one of one, and
/// the chosen one of several.
pub open spec fn pick<T>(c: Seq<T>, choice: Option<usize>) -> Option<T> {
    if c.len() == 0 {
        None
    } else if c.len() == 1 {
        Some(c[0])
    } else {
        match choice {
            Some(i) => if i < c.len() {
                Some(c[i as int])
            } else {
                None
            },
            None => None,
        }
    }
}

pub open spec fn picked_text(c: Seq<SelectOption<String>>, choice: Option<usize>) -> Option<Seq<char>> {
    match pick(c, choice) {
        Some(o) => Some(o.value@),
        None => None,
    }
}

/// The distinct licenses other than `Unknown`, each with its source; of
/// several records with one license, the first read from a license file is
/// kept, or else the first.
pub open spec fn license_candidates(recs: Seq<ConverterOutput>) -> Seq<SelectOption<License>>
    decreases recs.len(),
{
    if recs.len() == 0 {
        Seq::empty()
    } else {
        let prev = license_candidates(recs.drop_last());
        let src = recs.last().source_config_file_path;
        match recs.last().license {
            Some(l) => if l.name == SupportedLicense::Unknown {
                prev
            } else {
                let k = license_index(prev, l.name);
                if k == prev.len() {
                    prev.push(SelectOption { name: src, value: l })
                } else if prev[k].value.path is None && l.path is Some {
                    prev.update(k, SelectOption { name: src, value: l })
                } else {
                    prev
                }
            },
            None => prev,
        }
    }
}

/// Where license `n` first stands in `c`; `c`'s length where it does not.
pub open spec fn license_index(c: Seq<SelectOption<License>>, n: SupportedLicense) -> int
    decreases c.len(),
{
    if c.len() == 0 {
        0
    } else if c[0].value.name == n {
        0
    } else {
        1 + license_index(c.drop_first(), n)
    }
}

/// The distinct repositories with an address that is not empty, each with the
/// source that gave it first.
pub open spec fn repository_candidates(recs: Seq<ConverterOutput>) -> Seq<SelectOption<Repository>>
    decreases recs.len(),
{
    if recs.len() == 0 {
        Seq::empty()
    } else {
        let prev = repository_candidates(recs.drop_last());
        match recs.last().repository {
            Some(r) => if r.url@.len() > 0 && !has_url(prev, r.url@) {
                prev.push(SelectOption { name: recs.last().source_config_file_path, value: r })
            } else {
                prev
            },
            None => prev,
        }
    }
}

pub open spec fn has_url(c: Seq<SelectOption<Repository>>, u: Seq<char>) -> bool {
    exists|j: int| 0 <= j < c.len() && (#[trigger] c[j]).value.url@ == u
}

/// The choices of a resolver for the fields where values conflict.
#[derive(Debug, Clone, Copy)]
pub struct MergeChoices {
    pub name: Option<usize>,
    pub description: Option<usize>,
    pub version: Option<usize>,
    pub license: Option<usize>,
    pub repository: Option<usize>,
}

pub open spec fn unlicensed() -> License {
    License { name: SupportedLicense::Unlicense, path: None, url: None }
}

/// The license of the merged record: where no record has a known license,
/// the chosen one of all licenses, `Unlicense` where none is chosen.
pub open spec fn merged_license(recs: Seq<ConverterOutput>, choice: Option<usize>) -> Option<License> {
    let c = license_candidates(recs);
    if c.len() == 0 {
        match choice {
            Some(i) => if i < all_licenses().len() {
                Some(License { name: all_licenses()[i as int], path: None, url: None })
            } else {
                Some(unlicensed())
            },
            None => Some(unlicensed()),
        }
    } else {
        match pick(c, choice) {
            Some(o) => Some(o.value),
            None => None,
        }
    }
}

pub open spec fn opt_license_view(l: Option<License>) -> Option<crate::license::LicenseView> {
    match l {
        Some(x) => Some(x@),
        None => None,
    }
}

/// The record that merging `recs` gives under choices `c`.
pub open spec fn merged(recs: Seq<ConverterOutput>, c: MergeChoices) -> RecordView {
    RecordView {
        source: Seq::empty(),
        name: picked_text(text_candidates(recs, ScalarField::Name), c.name),
        description: picked_text(text_candidates(recs, ScalarField::Description), c.description),
        version: picked_text(text_candidates(recs, ScalarField::Version), c.version),
        license: opt_license_view(merged_license(recs, c.license)),
        repository: match pick(repository_candidates(recs), c.repository) {
            Some(o) => Some(o.value@),
            None => None,
        },
        contributors: Some(
            unique_by_key(gather(recs, contributors_sel())).map_values(
                |x: Contributor| x@,
            ),
        ),
        dependencies: Some(
            unique_by_key(gather(recs, dependencies_sel())).map_values(
                |x: Dependency| x@,
            ),
        ),
        dev_dependencies: Some(
            unique_by_key(gather(recs, dev_dependencies_sel())).map_values(
                |x: Dependency| x@,
            ),
        ),
        build_dependencies: Some(
            unique_by_key(gather(recs, build_dependencies_sel())).map_values(
                |x: Dependency| x@,
            ),
        ),
        funding: Some(
            unique_by_key(gather(recs, funding_sel())).map_values(
                |x: Funding| x@,
            ),
        ),
        keywords: Some(
            unique_by_key(gather(recs, keywords_sel())).map_values(
                |x: String| x@,
            ),
        ),
    }
}

fn scalar_field(r: &ConverterOutput, f: ScalarField) -> (v: &Option<String>)
    ensures
        *v == scalar_of(*r, f),
{
    match f {
        ScalarField::Name => &r.name,
        ScalarField::Description => &r.description,
        ScalarField::Version => &r.version,
    }
}

/// The candidates for text field `f`.
pub fn text_candidates_of(recs: &Vec<ConverterOutput>, f: ScalarField) -> (r: Vec<SelectOption<String>>)
    ensures
        r@ == text_candidates(recs@, f),
{
    let mut c: Vec<SelectOption<String>> = Vec::new();
    let mut i: usize = 0;
    while i < recs.len()
        invariant
            i <= recs@.len(),
            c@ == text_candidates(recs@.subrange(0, i as int), f),
        decreases recs.len() - i,
    {
        assert(recs@.subrange(0, i + 1).drop_last() =~= recs@.subrange(0, i as int));
        let r = &recs[i];
        match scalar_field(r, f) {
            Some(v) => {
                if v.unicode_len() > 0 {
                    let mut j: usize = 0;
                    let mut found = false;
                    while j < c.len()
                        invariant
                            j <= c@.len(),
                            !found ==> forall|k: int| 0 <= k < j ==> (#[trigger] c@[k]).value@ != v@,
                            found ==> has_text(c@, v@),
                        decreases c.len() - j,
                    {
                        if c[j].value.eq(v) {
                            found = true;
                        }
                        j = j + 1;
                    }
                    if !found {
                        c.push(SelectOption { name: r.source_config_file_path.clone(), value: v.clone() });
                    }
                }
            },
            None => {},
        }
        i = i + 1;
    }
    assert(recs@.subrange(0, recs@.len() as int) =~= recs@);
    c
}

proof fn lemma_license_index(c: Seq<SelectOption<License>>, n: SupportedLicense)
    ensures
        0 <= license_index(c, n) <= c.len(),
        license_index(c, n) < c.len() ==> c[license_index(c, n)].value.name == n,
        forall|j: int| 0 <= j < license_index(c, n) ==> c[j].value.name != n,
    decreases c.len(),
{
    if c.len() > 0 && c[0].value.name != n {
        lemma_license_index(c.drop_first(), n);
        assert forall|j: int| 0 <= j < license_index(c, n) implies c[j].value.name != n by {
            if j > 0 {
                assert(c[j] == c.drop_first()[j - 1]);
            }
        }
    }
}

fn license_position(c: &Vec<SelectOption<License>>, n: SupportedLicense) -> (r: usize)
    ensures
        r == license_index(c@, n),
{
    proof {
        lemma_license_index(c@, n);
    }
    let mut i: usize = 0;
    while i < c.len()
        invariant
            i <= c@.len(),
            0 <= license_index(c@, n) <= c@.len(),
            license_index(c@, n) < c@.len() ==> c@[license_index(c@, n)].value.name == n,
            forall|j: int| 0 <= j < i ==> c@[j].value.name != n,
        decreases c.len() - i,
    {
        if c[i].value.name == n {
            proof {
                lemma_license_index(c@, n);
            }
            return i;
        }
        i = i + 1;
    }
    c.len()
}

/// The candidates for the license.
pub fn license_candidates_of(recs: &Vec<ConverterOutput>) -> (r: Vec<SelectOption<License>>)
    ensures
        r@ == license_candidates(recs@),
{
    let mut c: Vec<SelectOption<License>> = Vec::new();
    let mut i: usize = 0;
    while i < recs.len()
        invariant
            i <= recs@.len(),
            c@ == license_candidates(recs@.subrange(0, i as int)),
        decreases recs.len() - i,
    {
        assert(recs@.subrange(0, i + 1).drop_last() =~= recs@.subrange(0, i as int));
        let r = &recs[i];
        match &r.license {
            Some(l) => {
                if l.name != SupportedLicense::Unknown {
                    let k = license_position(&c, l.name);
                    proof {
                        lemma_license_index(c@, l.name);
                    }
                    if k == c.len() {
                        c.push(SelectOption { name: r.source_config_file_path.clone(), value: l.duplicate() });
                    } else if c[k].value.path.is_none() && l.path.is_some() {
                        c[k] = SelectOption { name: r.source_config_file_path.clone(), value: l.duplicate() };
                    }
                }
            },
            None => {},
        }
        i = i + 1;
    }
    assert(recs@.subrange(0, recs@.len() as int) =~= recs@);
    c
}

/// The candidates for the repository.
pub fn repository_candidates_of(recs: &Vec<ConverterOutput>) -> (r: Vec<SelectOption<Repository>>)
    ensures
        r@ == repository_candidates(recs@),
{
    let mut c: Vec<SelectOption<Repository>> = Vec::new();
    let mut i: usize = 0;
    while i < recs.len()
        invariant
            i <= recs@.len(),
            c@ == repository_candidates(recs@.subrange(0, i as int)),
        decreases recs.len() - i,
    {
        assert(recs@.subrange(0, i + 1).drop_last() =~= recs@.subrange(0, i as int));
        let r = &recs[i];
        match &r.repository {
            Some(repo) => {
                if repo.url.unicode_len() > 0 {
                    let mut j: usize = 0;
                    let mut found = false;
                    while j < c.len()
                        invariant
                            j <= c@.len(),
                            !found ==> forall|k: int| 0 <= k < j ==> (#[trigger] c@[k]).value.url@ != repo.url@,
                            found ==> has_url(c@, repo.url@),
                        decreases c.len() - j,
                    {
                        if c[j].value.url.eq(&repo.url) {
                            found = true;
                        }
                        j = j + 1;
                    }
                    if !found {
                        c.push(SelectOption { name: r.source_config_file_path.clone(), value: repo.duplicate() });
                    }
                }
            },
            None => {},
        }
        i = i + 1;
    }
    assert(recs@.subrange(0, recs@.len() as int) =~= recs@);
    c
}

proof fn lemma_gather_step<T: Keyed>(
    recs: Seq<ConverterOutput>,
    i: int,
    get: spec_fn(ConverterOutput) -> Seq<T>,
)
    requires
        0 <= i < recs.len(),
    ensures
        unique_extend(unique_by_key(gather(recs.subrange(0, i), get)), get(recs[i]))
            == unique_by_key(gather(recs.subrange(0, i + 1), get)),
{
    assert(recs.subrange(0, i + 1).drop_last() =~= recs.subrange(0, i));
    lemma_unique_extend_concat(Seq::empty(), gather(recs.subrange(0, i), get), get(recs[i]));
}

/// The merged collections: contributors, dependencies of the three kinds,
/// funding and keywords, each concatenated over the records and cleared of
/// later items with a key already seen.
pub fn merge_collections(recs: &Vec<ConverterOutput>) -> (r: (
    Vec<Contributor>,
    Vec<Dependency>,
    Vec<Dependency>,
    Vec<Dependency>,
    Vec<Funding>,
    Vec<String>,
))
    ensures
        r.0@ == unique_by_key(gather(recs@, contributors_sel())),
        r.1@ == unique_by_key(gather(recs@, dependencies_sel())),
        r.2@ == unique_by_key(gather(recs@, dev_dependencies_sel())),
        r.3@ == unique_by_key(gather(recs@, build_dependencies_sel())),
        r.4@ == unique_by_key(gather(recs@, funding_sel())),
        r.5@ == unique_by_key(gather(recs@, keywords_sel())),
{
    let mut cs: Vec<Contributor> = Vec::new();
    let mut ds: Vec<Dependency> = Vec::new();
    let mut dd: Vec<Dependency> = Vec::new();
    let mut bd: Vec<Dependency> = Vec::new();
    let mut fs: Vec<Funding> = Vec::new();
    let mut ks: Vec<String> = Vec::new();
    let mut i: usize = 0;
    while i < recs.len()
        invariant
            i <= recs@.len(),
            cs@ == unique_by_key(gather(recs@.subrange(0, i as int), contributors_sel())),
            ds@ == unique_by_key(gather(recs@.subrange(0, i as int), dependencies_sel())),
            dd@ == unique_by_key(gather(recs@.subrange(0, i as int), dev_dependencies_sel())),
            bd@ == unique_by_key(gather(recs@.subrange(0, i as int), build_dependencies_sel())),
            fs@ == unique_by_key(gather(recs@.subrange(0, i as int), funding_sel())),
            ks@ == unique_by_key(gather(recs@.subrange(0, i as int), keywords_sel())),
        decreases recs.len() - i,
    {
        proof {
            lemma_gather_step(recs@, i as int, contributors_sel());
            lemma_gather_step(recs@, i as int, dependencies_sel());
            lemma_gather_step(recs@, i as int, dev_dependencies_sel());
            lemma_gather_step(recs@, i as int, build_dependencies_sel());
            lemma_gather_step(recs@, i as int, funding_sel());
            lemma_gather_step(recs@, i as int, keywords_sel());
        }
        let r = &recs[i];
        match &r.contributors {
            Some(c) => extend_unique(&mut cs, &c.0),
            None => {},
        }
        match &r.dependencies {
            Some(d) => extend_unique(&mut ds, &d.0),
            None => {},
        }
        match &r.dev_dependencies {
            Some(d) => extend_unique(&mut dd, &d.0),
            None => {},
        }
        match &r.build_dependencies {
            Some(d) => extend_unique(&mut bd, &d.0),
            None => {},
        }
        match &r.funding {
            Some(f) => extend_unique(&mut fs, &f.0),
            None => {},
        }
        match &r.keywords {
            Some(k) => extend_unique(&mut ks, k),
            None => {},
        }
        i = i + 1;
    }
    assert(recs@.subrange(0, recs@.len() as int) =~= recs@);
    (cs, ds, dd, bd, fs, ks)
}

fn pick_text(c: &Vec<SelectOption<String>>, choice: Option<usize>) -> (r: Option<String>)
    ensures
        opt_view(r) == picked_text(c@, choice),
{
    if c.len() == 0 {
        None
    } else if c.len() == 1 {
        Some(c[0].value.clone())
    } else {
        match choice {
            Some(i) => if i < c.len() {
                Some(c[i].value.clone())
            } else {
                None
            },
            None => None,
        }
    }
}

fn pick_license(
    recs: &Vec<ConverterOutput>,
    c: &Vec<SelectOption<License>>,
    choice: Option<usize>,
) -> (r: Option<License>)
    requires
        c@ == license_candidates(recs@),
    ensures
        r == merged_license(recs@, choice),
{
    if c.len() == 0 {
        let all = SupportedLicense::all();
        match choice {
            Some(i) => if i < all.len() {
                Some(License { name: all[i], path: None, url: None })
            } else {
                Some(License { name: SupportedLicense::Unlicense, path: None, url: None })
            },
            None => Some(License { name: SupportedLicense::Unlicense, path: None, url: None }),
        }
    } else if c.len() == 1 {
        Some(c[0].value.duplicate())
    } else {
        match choice {
            Some(i) => if i < c.len() {
                Some(c[i].value.duplicate())
            } else {
                None
            },
            None => None,
        }
    }
}

fn pick_repository(c: &Vec<SelectOption<Repository>>, choice: Option<usize>) -> (r: Option<Repository>)
    ensures
        match pick(c@, choice) {
            Some(o) => r == Some(o.value),
            None => r is None,
        },
{
    if c.len() == 0 {
        None
    } else if c.len() == 1 {
        Some(c[0].value.duplicate())
    } else {
        match choice {
            Some(i) => if i < c.len() {
                Some(c[i].value.duplicate())
            } else {
                None
            },
            None => None,
        }
    }
}

/// Merges the records with the given choices for the conflicting fields.
pub fn merge_with_choices(recs: &Vec<ConverterOutput>, choices: &MergeChoices) -> (r: ConverterOutput)
    ensures
        r@ == merged(recs@, *choices),
{
    let names = text_candidates_of(recs, ScalarField::Name);
    let descriptions = text_candidates_of(recs, ScalarField::Description);
    let versions = text_candidates_of(recs, ScalarField::Version);
    let licenses = license_candidates_of(recs);
    let repositories = repository_candidates_of(recs);
    assemble(recs, &names, &descriptions, &versions, &licenses, &repositories, choices)
}

fn assemble(
    recs: &Vec<ConverterOutput>,
    names: &Vec<SelectOption<String>>,
    descriptions: &Vec<SelectOption<String>>,
    versions: &Vec<SelectOption<String>>,
    licenses: &Vec<SelectOption<License>>,
    repositories: &Vec<SelectOption<Repository>>,
    choices: &MergeChoices,
) -> (r: ConverterOutput)
    requires
        names@ == text_candidates(recs@, ScalarField::Name),
        descriptions@ == text_candidates(recs@, ScalarField::Description),
        versions@ == text_candidates(recs@, ScalarField::Version),
        licenses@ == license_candidates(recs@),
        repositories@ == repository_candidates(recs@),
    ensures
        r@ == merged(recs@, *choices),
{
    let (cs, ds, dd, bd, fs, ks) = merge_collections(recs);
    let out = ConverterOutput {
        source_config_file_path: String::new(),
        name: pick_text(names, choices.name),
        description: pick_text(descriptions, choices.description),
        version: pick_text(versions, choices.version),
        contributors: Some(Contributors(cs)),
        license: pick_license(recs, licenses, choices.license),
        keywords: Some(ks),
        repository: pick_repository(repositories, choices.repository),
        dependencies: Some(Dependencies(ds)),
        dev_dependencies: Some(Dependencies(dd)),
        build_dependencies: Some(Dependencies(bd)),
        funding: Some(Fundings(fs)),
    };
    assert(out@.contributors == merged(recs@, *choices).contributors);
    assert(out@.keywords == merged(recs@, *choices).keywords);
    assert(out@ == merged(recs@, *choices));
    out
}

/// The (label, value) texts offered for the license: each candidate's
/// source and license name.
pub open spec fn license_options(c: Seq<SelectOption<License>>) -> Seq<(Seq<char>, Seq<char>)> {
    c.map_values(|o: SelectOption<License>| (o.name@, o.value.name.spec_name()))
}

/// Every license, offered where no record has a known one.
pub open spec fn fallback_options() -> Seq<(Seq<char>, Seq<char>)> {
    all_licenses().map_values(|l: SupportedLicense| (l.spec_name(), l.spec_name()))
}

/// The (label, value) texts offered for the repository: source and address.
pub open spec fn repository_options(c: Seq<SelectOption<Repository>>) -> Seq<(Seq<char>, Seq<char>)> {
    c.map_values(|o: SelectOption<Repository>| (o.name@, o.value.url@))
}

/// Whether `choice` is an answer that `resolver` gives when asked about
/// `field_name` with options whose texts are `options`.
pub open spec fn answers<F: Fn(String, Vec<SelectOption<String>>) -> Option<usize>>(
    resolver: F,
    field_name: Seq<char>,
    options: Seq<(Seq<char>, Seq<char>)>,
    choice: Option<usize>,
) -> bool {
    exists|f: String, o: Vec<SelectOption<String>>|
        f@ == field_name && options_view(o@) == options && #[trigger] resolver.ensures((f, o), choice)
}

/// The resolver is asked where there are several options and its answer is
/// taken; with one option or none it is not asked and there is no choice.
pub open spec fn asked<F: Fn(String, Vec<SelectOption<String>>) -> Option<usize>>(
    resolver: F,
    field_name: Seq<char>,
    options: Seq<(Seq<char>, Seq<char>)>,
    choice: Option<usize>,
) -> bool {
    if options.len() > 1 {
        answers(resolver, field_name, options, choice)
    } else {
        choice is None
    }
}

/// Whether `c` holds, for every field, the answer of `resolver` on that
/// field's candidates: for the license, among all licenses where no record
/// has a known one.
pub open spec fn resolved_by<F: Fn(String, Vec<SelectOption<String>>) -> Option<usize>>(
    resolver: F,
    recs: Seq<ConverterOutput>,
    c: MergeChoices,
) -> bool {
    &&& asked(resolver, "name"@, options_view(text_candidates(recs, ScalarField::Name)), c.name)
    &&& asked(
        resolver,
        "description"@,
        options_view(text_candidates(recs, ScalarField::Description)),
        c.description,
    )
    &&& asked(resolver, "version"@, options_view(text_candidates(recs, ScalarField::Version)), c.version)
    &&& if license_candidates(recs).len() == 0 {
        answers(resolver, "license"@, fallback_options(), c.license)
    } else {
        asked(resolver, "license"@, license_options(license_candidates(recs)), c.license)
    }
    &&& asked(resolver, "repository"@, repository_options(repository_candidates(recs)), c.repository)
}

/// Merges the records of several sources into one.
pub struct Merger;

impl Merger {
    pub fn new() -> (r: Merger) {
        Merger
    }

    /// Asks the resolver for a choice where there are several options.
    fn merge_field<F: Fn(String, Vec<SelectOption<String>>) -> Option<usize>>(
        &self,
        resolver: &F,
        field_name: &str,
        options: Vec<SelectOption<String>>,
    ) -> (r: Option<usize>)
        requires
            forall|f: String, o: Vec<SelectOption<String>>| resolver.requires((f, o)),
        ensures
            asked(*resolver, field_name@, options_view(options@), r),
    {
        if options.len() > 1 {
            let ghost o = options;
            let f = String::from_str(field_name);
            let ghost fv = f;
            let r = resolver(f, options);
            assert(resolver.ensures((fv, o), r));
            r
        } else {
            None
        }
    }

    /// The choice for the license: among all licenses where no record has a
    /// known one, else among the records' licenses.
    fn merge_licenses<F: Fn(String, Vec<SelectOption<String>>) -> Option<usize>>(
        &self,
        resolver: &F,
        licenses: &Vec<SelectOption<License>>,
    ) -> (r: Option<usize>)
        requires
            forall|f: String, o: Vec<SelectOption<String>>| resolver.requires((f, o)),
        ensures
            if licenses@.len() == 0 {
                answers(*resolver, "license"@, fallback_options(), r)
            } else {
                asked(*resolver, "license"@, license_options(licenses@), r)
            },
    {
        let mut options: Vec<SelectOption<String>> = Vec::new();
        if licenses.len() == 0 {
            let all = SupportedLicense::all();
            let mut i: usize = 0;
            while i < all.len()
                invariant
                    i <= all@.len(),
                    all@ == all_licenses(),
                    options_view(options@) == fallback_options().subrange(0, i as int),
                decreases all.len() - i,
            {
                let ghost before = options@;
                let n = all[i].to_string();
                options.push(SelectOption { name: n.clone(), value: n });
                assert(options_view(options@) =~= options_view(before).push(
                    (all@[i as int].spec_name(), all@[i as int].spec_name()),
                ));
                assert(fallback_options().subrange(0, i + 1) =~= fallback_options().subrange(
                    0,
                    i as int,
                ).push(fallback_options()[i as int]));
                i = i + 1;
            }
            assert(fallback_options().subrange(0, all@.len() as int) =~= fallback_options());
            let ghost o = options;
            let f = String::from_str("license");
            let ghost fv = f;
            let r = resolver(f, options);
            assert(resolver.ensures((fv, o), r));
            r
        } else {
            let mut i: usize = 0;
            while i < licenses.len()
                invariant
                    i <= licenses@.len(),
                    options_view(options@) == license_options(licenses@).subrange(0, i as int),
                decreases licenses.len() - i,
            {
                let ghost before = options@;
                options.push(
                    SelectOption {
                        name: licenses[i].name.clone(),
                        value: licenses[i].value.name.to_string(),
                    },
                );
                assert(options_view(options@) =~= options_view(before).push(
                    (licenses@[i as int].name@, licenses@[i as int].value.name.spec_name()),
                ));
                assert(license_options(licenses@).subrange(0, i + 1) =~= license_options(
                    licenses@,
                ).subrange(0, i as int).push(license_options(licenses@)[i as int]));
                i = i + 1;
            }
            assert(license_options(licenses@).subrange(0, licenses@.len() as int) =~= license_options(
                licenses@,
            ));
            self.merge_field(resolver, "license", options)
        }
    }

    /// Merges the records; `resolver` is asked, with the field's name and
    /// its candidates, where a field has several distinct values, and not
    /// where it has one or none.
    pub fn merge<F: Fn(String, Vec<SelectOption<String>>) -> Option<usize>>(
        &self,
        converted_configs: Vec<ConverterOutput>,
        resolver: F,
    ) -> (r: ConverterOutput)
        requires
            forall|f: String, o: Vec<SelectOption<String>>| resolver.requires((f, o)),
        ensures
            exists|c: MergeChoices|
                resolved_by(resolver, converted_configs@, c) && r@ == merged(converted_configs@, c),
    {
        let recs = &converted_configs;
        let names = text_candidates_of(recs, ScalarField::Name);
        let descriptions = text_candidates_of(recs, ScalarField::Description);
        let versions = text_candidates_of(recs, ScalarField::Version);
        let licenses = license_candidates_of(recs);
        let repositories = repository_candidates_of(recs);
        let name = self.merge_field(&resolver, "name", copy_options(&names));
        let description = self.merge_field(&resolver, "description", copy_options(&descriptions));
        let version = self.merge_field(&resolver, "version", copy_options(&versions));
        let license = self.merge_licenses(&resolver, &licenses);
        let mut urls: Vec<SelectOption<String>> = Vec::new();
        let mut i: usize = 0;
        while i < repositories.len()
            invariant
                i <= repositories@.len(),
                options_view(urls@) == repository_options(repositories@).subrange(0, i as int),
            decreases repositories.len() - i,
        {
            let ghost before = urls@;
            urls.push(
                SelectOption {
                    name: repositories[i].name.clone(),
                    value: repositories[i].value.url.clone(),
                },
            );
            assert(options_view(urls@) =~= options_view(before).push(
                (repositories@[i as int].name@, repositories@[i as int].value.url@),
            ));
            assert(repository_options(repositories@).subrange(0, i + 1) =~= repository_options(
                repositories@,
            ).subrange(0, i as int).push(repository_options(repositories@)[i as int]));
            i = i + 1;
        }
        assert(repository_options(repositories@).subrange(0, repositories@.len() as int)
            =~= repository_options(repositories@));
        let repository = self.merge_field(&resolver, "repository", urls);
        let choices = MergeChoices { name, description, version, license, repository };
        let r = assemble(recs, &names, &descriptions, &versions, &licenses, &repositories, &choices);
        assert(resolved_by(resolver, converted_configs@, choices));
        r
    }
}

/// A copy of options with the same texts.
fn copy_options(c: &Vec<SelectOption<String>>) -> (r: Vec<SelectOption<String>>)
    ensures
        options_view(r@) == options_view(c@),
{
    let mut r: Vec<SelectOption<String>> = Vec::new();
    let mut i: usize = 0;
    while i < c.len()
        invariant
            i <= c@.len(),
            options_view(r@) == options_view(c@).subrange(0, i as int),
        decreases c.len() - i,
    {
        let ghost before = r@;
        r.push(SelectOption { name: c[i].name.clone(), value: c[i].value.clone() });
        assert(options_view(r@) =~= options_view(before).push((c@[i as int].name@, c@[i as int].value@)));
        assert(options_view(c@).subrange(0, i + 1) =~= options_view(c@).subrange(0, i as int).push(
            options_view(c@)[i as int],
        ));
        i = i + 1;
    }
    assert(options_view(c@).subrange(0, c@.len() as int) =~= options_view(c@));
    r
}

proof fn lemma_extend_keys_unique<T: Keyed>(acc: Seq<T>, s: Seq<T>)
    requires
        forall|i: int, j: int| 0 <= i < j < acc.len() ==> acc[i].key() != acc[j].key(),
    ensures
        forall|i: int, j: int|
            0 <= i < j < unique_extend(acc, s).len() ==> unique_extend(acc, s)[i].key()
                != unique_extend(acc, s)[j].key(),
    decreases s.len(),
{
    if s.len() > 0 {
        lemma_extend_keys_unique(acc, s.drop_last());
        let prev = unique_extend(acc, s.drop_last());
        if !has_key(prev, s.last().key()) {
            let u = prev.push(s.last());
            assert forall|i: int, j: int| 0 <= i < j < u.len() implies u[i].key() != u[j].key() by {
                assert(u[i] == prev[i]);
                if j < prev.len() {
                    assert(u[j] == prev[j]);
                } else {
                    assert(u[j] == s.last());
                    assert(!(0 <= i < prev.len() && (#[trigger] prev[i]).key() == s.last().key()));
                }
            }
        }
    }
}

proof fn lemma_extend_keeps<T: Keyed>(acc: Seq<T>, s: Seq<T>, i: int)
    requires
        0 <= i < s.len(),
        !has_key(acc, s[i].key()),
        forall|j: int| 0 <= j < i ==> s[j].key() != s[i].key(),
    ensures
        exists|k: int| 0 <= k < unique_extend(acc, s).len() && unique_extend(acc, s)[k] == s[i],
    decreases s.len(),
{
    let prev = unique_extend(acc, s.drop_last());
    if i == s.len() - 1 {
        if has_key(prev, s[i].key()) {
            let k = choose|k: int| 0 <= k < prev.len() && (#[trigger] prev[k]).key() == s[i].key();
            lemma_extend_origin(acc, s.drop_last(), k);
        }
        assert(unique_extend(acc, s)[prev.len() as int] == s[i]);
    } else {
        lemma_extend_keeps(acc, s.drop_last(), i);
        let k = choose|k: int| 0 <= k < prev.len() && prev[k] == s.drop_last()[i];
        assert(unique_extend(acc, s)[k] == s[i]);
    }
}

proof fn lemma_extend_origin<T: Keyed>(acc: Seq<T>, s: Seq<T>, k: int)
    requires
        0 <= k < unique_extend(acc, s).len(),
    ensures
        has_key(acc, unique_extend(acc, s)[k].key()) || exists|j: int|
            0 <= j < s.len() && (#[trigger] s[j]).key() == unique_extend(acc, s)[k].key(),
    decreases s.len(),
{
    if s.len() > 0 {
        let prev = unique_extend(acc, s.drop_last());
        if k < prev.len() {
            lemma_extend_origin(acc, s.drop_last(), k);
            if !has_key(acc, prev[k].key()) {
                let j = choose|j: int| 0 <= j < s.drop_last().len() && (#[trigger] s.drop_last()[j]).key() == prev[k].key();
                assert(s[j] == s.drop_last()[j]);
            }
        } else {
            assert(s[s.len() - 1].key() == unique_extend(acc, s)[k].key());
        }
    }
}

/// A merged collection holds no two items with the same key: two contributors
/// with one email are merged into one.
pub proof fn lemma_merged_keys_unique<T: Keyed>(s: Seq<T>)
    ensures
        forall|i: int, j: int|
            0 <= i < j < unique_by_key(s).len() ==> unique_by_key(s)[i].key() != unique_by_key(
                s,
            )[j].key(),
{
    lemma_extend_keys_unique(Seq::<T>::empty(), s);
}

/// The first item of each key survives a merge unchanged, whatever items with
/// that key follow it: of two dependencies named alike the first is kept, and
/// contributors with different emails all stay.
pub proof fn lemma_first_of_key_kept<T: Keyed>(s: Seq<T>, i: int)
    requires
        0 <= i < s.len(),
        forall|j: int| 0 <= j < i ==> s[j].key() != s[i].key(),
    ensures
        exists|k: int| 0 <= k < unique_by_key(s).len() && unique_by_key(s)[k] == s[i],
{
    assert(!has_key(Seq::<T>::empty(), s[i].key()));
    lemma_extend_keeps(Seq::<T>::empty(), s, i);
    let u = unique_extend(Seq::<T>::empty(), s);
    let k = choose|k: int| 0 <= k < u.len() && u[k] == s[i];
    assert(unique_by_key(s)[k] == s[i]);
}

/// Every item of a merged collection has the key of an item of the input.
pub proof fn lemma_merged_from_input<T: Keyed>(s: Seq<T>, k: int)
    requires
        0 <= k < unique_by_key(s).len(),
    ensures
        exists|j: int| 0 <= j < s.len() && (#[trigger] s[j]).key() == unique_by_key(s)[k].key(),
{
    lemma_extend_origin(Seq::<T>::empty(), s, k);
}

pub open spec fn gives_text(r: ConverterOutput, f: ScalarField) -> bool {
    scalar_of(r, f) is Some && scalar_of(r, f)->0@.len() > 0
}

proof fn lemma_candidates_from_first(recs: Seq<ConverterOutput>, f: ScalarField, i: int, k: int)
    requires
        0 <= i < recs.len(),
        0 <= k <= recs.len(),
        gives_text(recs[i], f),
        forall|j: int| 0 <= j < i ==> !gives_text(#[trigger] recs[j], f),
    ensures
        k <= i ==> text_candidates(recs.subrange(0, k), f).len() == 0,
        k > i ==> text_candidates(recs.subrange(0, k), f).len() >= 1 && text_candidates(
            recs.subrange(0, k),
            f,
        )[0] == (SelectOption { name: recs[i].source_config_file_path, value: scalar_of(recs[i], f)->0 }),
    decreases k,
{
    if k > 0 {
        lemma_candidates_from_first(recs, f, i, k - 1);
        let sub = recs.subrange(0, k);
        assert(sub.drop_last() =~= recs.subrange(0, k - 1));
        assert(sub.last() == recs[k - 1]);
    }
}

/// A field given by exactly one record, `i`, takes that record's value,
/// whatever the choices: no resolver decides it.
pub proof fn lemma_single_candidate(recs: Seq<ConverterOutput>, f: ScalarField, i: int)
    requires
        0 <= i < recs.len(),
        gives_text(recs[i], f),
        forall|j: int| 0 <= j < recs.len() && j != i ==> !gives_text(#[trigger] recs[j], f),
    ensures
        forall|choice: Option<usize>|
            #[trigger] picked_text(text_candidates(recs, f), choice) == Some(
                scalar_of(recs[i], f)->0@,
            ),
{
    lemma_candidates_from_first(recs, f, i, recs.len() as int);
    lemma_single_candidate_count(recs, f, i, recs.len() as int);
    assert(recs.subrange(0, recs.len() as int) =~= recs);
}

proof fn lemma_single_candidate_count(recs: Seq<ConverterOutput>, f: ScalarField, i: int, k: int)
    requires
        0 <= i < recs.len(),
        0 <= k <= recs.len(),
        gives_text(recs[i], f),
        forall|j: int| 0 <= j < recs.len() && j != i ==> !gives_text(#[trigger] recs[j], f),
    ensures
        text_candidates(recs.subrange(0, k), f).len() == if k <= i {
            0int
        } else {
            1int
        },
    decreases k,
{
    if k > 0 {
        lemma_single_candidate_count(recs, f, i, k - 1);
        let sub = recs.subrange(0, k);
        assert(sub.drop_last() =~= recs.subrange(0, k - 1));
        assert(sub.last() == recs[k - 1]);
        if k - 1 == i {
            lemma_candidates_from_first(recs, f, i, k - 1);
        }
    }
}

/// Choosing the first option gives the value of the first record that has
/// one, however many other values follow.
pub proof fn lemma_first_choice(recs: Seq<ConverterOutput>, f: ScalarField, i: int)
    requires
        0 <= i < recs.len(),
        gives_text(recs[i], f),
        forall|j: int| 0 <= j < i ==> !gives_text(#[trigger] recs[j], f),
    ensures
        picked_text(text_candidates(recs, f), Some(0usize)) == Some(scalar_of(recs[i], f)->0@),
{
    lemma_candidates_from_first(recs, f, i, recs.len() as int);
    assert(recs.subrange(0, recs.len() as int) =~= recs);
}

pub open spec fn has_no_known_license(recs: Seq<ConverterOutput>) -> bool {
    forall|j: int|
        0 <= j < recs.len() ==> (#[trigger] recs[j]).license is None || recs[j].license->0.name
            == SupportedLicense::Unknown
}

proof fn lemma_no_license_candidates(recs: Seq<ConverterOutput>)
    requires
        has_no_known_license(recs),
    ensures
        license_candidates(recs).len() == 0,
    decreases recs.len(),
{
    if recs.len() > 0 {
        assert(has_no_known_license(recs.drop_last())) by {
            assert forall|j: int| 0 <= j < recs.drop_last().len() implies (
            #[trigger] recs.drop_last()[j]).license is None || recs.drop_last()[j].license->0.name
                == SupportedLicense::Unknown by {
                assert(recs.drop_last()[j] == recs[j]);
            }
        }
        lemma_no_license_candidates(recs.drop_last());
        assert(recs.last() == recs[recs.len() - 1]);
    }
}

/// Where no record has a known license, the license is the one chosen among
/// all licenses, and `Unlicense` where none is chosen.
pub proof fn lemma_license_fallback(recs: Seq<ConverterOutput>, choice: Option<usize>)
    requires
        has_no_known_license(recs),
    ensures
        choice is Some && choice->0 < all_licenses().len() ==> merged_license(recs, choice) == Some(
            License { name: all_licenses()[choice->0 as int], path: None, url: None },
        ),
        choice is None ==> merged_license(recs, choice) == Some(unlicensed()),
{
    lemma_no_license_candidates(recs);
}

/// Merging no records gives no name, description, version or repository and
/// empty collections; the license is the fallback choice.
pub proof fn lemma_merge_nothing(c: MergeChoices)
    ensures
        merged(Seq::empty(), c).name is None,
        merged(Seq::empty(), c).description is None,
        merged(Seq::empty(), c).version is None,
        merged(Seq::empty(), c).repository is None,
        merged(Seq::empty(), c).contributors == Some(Seq::<crate::converter::ContributorView>::empty()),
        merged(Seq::empty(), c).dependencies == Some(Seq::<crate::converter::DependencyView>::empty()),
        merged(Seq::empty(), c).dev_dependencies == Some(Seq::<crate::converter::DependencyView>::empty()),
        merged(Seq::empty(), c).build_dependencies == Some(Seq::<crate::converter::DependencyView>::empty()),
        merged(Seq::empty(), c).funding == Some(Seq::<crate::converter::FundingView>::empty()),
        merged(Seq::empty(), c).keywords == Some(Seq::<Seq<char>>::empty()),
        merged(Seq::empty(), c).license == opt_license_view(merged_license(Seq::empty(), c.license)),
{
    assert(unique_by_key(gather(Seq::<ConverterOutput>::empty(), contributors_sel())).map_values(|x: Contributor| x@) =~= Seq::empty());
    assert(unique_by_key(gather(Seq::<ConverterOutput>::empty(), dependencies_sel())).map_values(|x: Dependency| x@) =~= Seq::empty());
    assert(unique_by_key(gather(Seq::<ConverterOutput>::empty(), dev_dependencies_sel())).map_values(|x: Dependency| x@) =~= Seq::empty());
    assert(unique_by_key(gather(Seq::<ConverterOutput>::empty(), build_dependencies_sel())).map_values(|x: Dependency| x@) =~= Seq::empty());
    assert(unique_by_key(gather(Seq::<ConverterOutput>::empty(), funding_sel())).map_values(|x: Funding| x@) =~= Seq::empty());
    assert(unique_by_key(gather(Seq::<ConverterOutput>::empty(), keywords_sel())).map_values(|x: String| x@) =~= Seq::empty());
}

/// With a resolver that picks the first option, the merged name is that of
/// the first record that has one, however many other names follow.
pub proof fn lemma_first_option_name<F: Fn(String, Vec<SelectOption<String>>) -> Option<usize>>(
    resolver: F,
    recs: Seq<ConverterOutput>,
    c: MergeChoices,
    i: int,
)
    requires
        forall|f: String, o: Vec<SelectOption<String>>, r: Option<usize>|
            #[trigger] resolver.ensures((f, o), r) ==> r == (if o@.len() > 0 {
                Some(0usize)
            } else {
                None
            }),
        resolved_by(resolver, recs, c),
        0 <= i < recs.len(),
        gives_text(recs[i], ScalarField::Name),
        forall|j: int| 0 <= j < i ==> !gives_text(#[trigger] recs[j], ScalarField::Name),
    ensures
        merged(recs, c).name == Some(scalar_of(recs[i], ScalarField::Name)->0@),
{
    lemma_candidates_from_first(recs, ScalarField::Name, i, recs.len() as int);
    assert(recs.subrange(0, recs.len() as int) =~= recs);
    let cands = text_candidates(recs, ScalarField::Name);
    if cands.len() > 1 {
        let (f, o) = choose|f: String, o: Vec<SelectOption<String>>|
            f@ == "name"@ && options_view(o@) == options_view(cands) && #[trigger] resolver.ensures(
                (f, o),
                c.name,
            );
        assert(o@.len() == options_view(o@).len());
    }
}

/// Where no record has a known license, a resolver that prefers `MIT` makes
/// the merged license MIT.
pub proof fn lemma_fallback_to_preferred<F: Fn(String, Vec<SelectOption<String>>) -> Option<usize>>(
    resolver: F,
    recs: Seq<ConverterOutput>,
    c: MergeChoices,
)
    requires
        forall|f: String, o: Vec<SelectOption<String>>, r: Option<usize>|
            #[trigger] resolver.ensures((f, o), r) ==> r == value_index(options_view(o@), "MIT"@, 0),
        resolved_by(resolver, recs, c),
        has_no_known_license(recs),
    ensures
        merged(recs, c).license == Some(
            (crate::license::LicenseView { name: SupportedLicense::MIT, path: None, url: None }),
        ),
{
    lemma_no_license_candidates(recs);
    reveal_strlit("MIT");
    reveal_strlit("Unknown");
    reveal_strlit("Apache-2.0");
    let opts = fallback_options();
    assert(opts[0].1 != "MIT"@) by {
        assert(opts[0].1.len() != "MIT"@.len());
    }
    assert(opts[1].1 != "MIT"@) by {
        assert(opts[1].1.len() != "MIT"@.len());
    }
    assert(opts[2].1 == "MIT"@);
    assert(value_index(opts, "MIT"@, 2) == Some(2usize));
    assert(value_index(opts, "MIT"@, 1) == Some(2usize));
    assert(value_index(opts, "MIT"@, 0) == Some(2usize));
    let (f, o) = choose|f: String, o: Vec<SelectOption<String>>|
        f@ == "license"@ && options_view(o@) == opts && #[trigger] resolver.ensures((f, o), c.license);
    assert(c.license == Some(2usize));
}

} // verus!
