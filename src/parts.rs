//! Field parsers shared by the manifest formats.

use crate::converter::{
    Contributor, ContributorView, Contributors, Dependencies, Dependency, DependencyView, Funding,
    FundingType, FundingView, Fundings, funding_types,
};
use crate::node::{member, opt_node, text_of, Node};
use crate::text::{contains, find_char, first_index, has_infix, opt_view, substring, trim, trimmed};
use vstd::prelude::*;

verus! {

/// The trimmed text of a string node, where that is not empty.
pub open spec fn field_text(n: Option<Node>) -> Option<Seq<char>> {
    match text_of(n) {
        Some(s) => if trimmed(s).len() > 0 {
            Some(trimmed(s))
        } else {
            None
        },
        None => None,
    }
}

/// The trimmed text under `key` of a table, where it is a string that is not blank.
pub fn field(root: &Node, key: &str) -> (r: Option<String>)
    ensures
        opt_view(r) == field_text(member(*root, key@)),
{
    match root.text(key) {
        Some(s) => {
            let t = trim(s);
            if t.as_str().unicode_len() > 0 {
                Some(t)
            } else {
                None
            }
        },
        None => None,
    }
}

/// The version that a dependency entry declares: the entry itself where it
/// is a string, its `version` where it is a table.
pub open spec fn version_of(v: Node) -> Option<Seq<char>> {
    match v {
        Node::Str(_) => text_of(Some(v)),
        Node::Table(_) => text_of(member(v, "version"@)),
        _ => None,
    }
}

/// A dependency entry: its value is a version string or a table; an entry
/// of another shape is not a dependency.
pub open spec fn dependency_of(e: (String, Node)) -> Option<DependencyView> {
    match e.1 {
        Node::Str(_) => Some(DependencyView { name: e.0@, version: version_of(e.1) }),
        Node::Table(_) => Some(DependencyView { name: e.0@, version: version_of(e.1) }),
        _ => None,
    }
}

/// The dependencies among the entries of a table, in order.
pub open spec fn dependency_entries(entries: Seq<(String, Node)>) -> Seq<DependencyView>
    decreases entries.len(),
{
    if entries.len() == 0 {
        Seq::empty()
    } else {
        let rest = dependency_entries(entries.drop_last());
        match dependency_of(entries.last()) {
            Some(d) => rest.push(d),
            None => rest,
        }
    }
}

/// The dependencies of a dependency table, with or without a version.
pub open spec fn dependency_list(n: Option<Node>) -> Option<Seq<DependencyView>> {
    match n {
        Some(Node::Table(entries)) => Some(dependency_entries(entries@)),
        _ => None,
    }
}

/// Reads a dependency entry; `None` where its value is neither a string nor a table.
pub fn parse_dependency(key: &String, value: &Node) -> (r: Option<Dependency>)
    ensures
        match r {
            Some(d) => dependency_of((*key, *value)) == Some(d@),
            None => dependency_of((*key, *value)) is None,
        },
{
    match value {
        Node::Str(s) => {
            let version = if s.unicode_len() > 0 {
                Some(s.clone())
            } else {
                None
            };
            Some(Dependency { name: key.clone(), version })
        },
        Node::Table(_) => Some(Dependency { name: key.clone(), version: value.text("version") }),
        _ => None,
    }
}

pub fn parse_dependencies(n: Option<&Node>) -> (r: Option<Dependencies>)
    ensures
        match r {
            Some(d) => dependency_list(opt_node(n)) == Some(d@),
            None => dependency_list(opt_node(n)) is None,
        },
{
    match n {
        Some(Node::Table(entries)) => {
            let mut out: Vec<Dependency> = Vec::new();
            let mut i: usize = 0;
            while i < entries.len()
                invariant
                    i <= entries@.len(),
                    out@.map_values(|d: Dependency| d@) == dependency_entries(
                        entries@.subrange(0, i as int),
                    ),
                decreases entries.len() - i,
            {
                let ghost before = out@;
                assert(entries@.subrange(0, i + 1).drop_last() =~= entries@.subrange(0, i as int));
                match parse_dependency(&entries[i].0, &entries[i].1) {
                    Some(d) => {
                        out.push(d);
                        assert(out@.map_values(|d: Dependency| d@) =~= before.map_values(
                            |d: Dependency| d@,
                        ).push(d@));
                    },
                    None => {},
                }
                i = i + 1;
            }
            assert(entries@.subrange(0, entries@.len() as int) =~= entries@);
            Some(Dependencies(out))
        },
        _ => None,
    }
}

/// The trimmed text between two indices, where it is not empty.
pub open spec fn part(s: Seq<char>, from: int, to: int) -> Option<Seq<char>> {
    if trimmed(s.subrange(from, to)).len() > 0 {
        Some(trimmed(s.subrange(from, to)))
    } else {
        None
    }
}

/// A contributor written as `Name <email> (url)`, each part optional.
pub open spec fn person(s: Seq<char>) -> ContributorView {
    let lt = first_index(s, '<');
    let gt = first_index(s, '>');
    let lp = first_index(s, '(');
    let rp = first_index(s, ')');
    let name_end = if lt < lp {
        lt
    } else {
        lp
    };
    ContributorView {
        name: part(s, 0, name_end),
        email: if lt < gt && gt < s.len() {
            part(s, lt + 1, gt)
        } else {
            None
        },
        url: if lp < rp && rp < s.len() {
            part(s, lp + 1, rp)
        } else {
            None
        },
    }
}

/// How a manifest format writes a contributor.
#[derive(Debug, Clone, Copy, PartialEq, Eq, Structural)]
pub enum ContributorShape {
    /// A string `Name <email> (url)`.
    Text,
    /// A table with `name`, `email` and a url key.
    Table,
}

/// A contributor of the format's shape: a string for `Text`, a table with
/// `name`, `email` and the url under `url_key` for `Table`; `None` for a
/// value of any other shape.
pub open spec fn contributor_of(n: Node, shape: ContributorShape, url_key: Seq<char>) -> Option<
    ContributorView,
> {
    match n {
        Node::Str(s) => if shape == ContributorShape::Text {
            Some(person(s@))
        } else {
            None
        },
        Node::Table(_) => if shape == ContributorShape::Table {
            Some(
                ContributorView {
                    name: text_of(member(n, "name"@)),
                    email: text_of(member(n, "email"@)),
                    url: text_of(member(n, url_key)),
                },
            )
        } else {
            None
        },
        _ => None,
    }
}

/// The contributors among `items`, in order; other values are passed over.
pub open spec fn contributor_list(items: Seq<Node>, shape: ContributorShape, url_key: Seq<char>) -> Seq<
    ContributorView,
>
    decreases items.len(),
{
    if items.len() == 0 {
        Seq::empty()
    } else {
        let rest = contributor_list(items.drop_last(), shape, url_key);
        match contributor_of(items.last(), shape, url_key) {
            Some(c) => rest.push(c),
            None => rest,
        }
    }
}

fn part_of(s: &str, from: usize, to: usize) -> (r: Option<String>)
    requires
        from <= to <= s@.len(),
    ensures
        opt_view(r) == part(s@, from as int, to as int),
{
    let t = trim(substring(s, from, to));
    if t.as_str().unicode_len() > 0 {
        Some(t)
    } else {
        None
    }
}

/// Reads a contributor written as `Name <email> (url)`.
pub fn parse_person(s: &str) -> (r: Contributor)
    ensures
        r@ == person(s@),
{
    let n = s.unicode_len();
    let lt = find_char(s, '<');
    let gt = find_char(s, '>');
    let lp = find_char(s, '(');
    let rp = find_char(s, ')');
    proof {
        crate::text::lemma_first_index(s@, '<');
        crate::text::lemma_first_index(s@, '(');
    }
    let name_end = if lt < lp {
        lt
    } else {
        lp
    };
    let name = part_of(s, 0, name_end);
    let email = if lt < gt && gt < n {
        part_of(s, lt + 1, gt)
    } else {
        None
    };
    let url = if lp < rp && rp < n {
        part_of(s, lp + 1, rp)
    } else {
        None
    };
    Contributor { name, email, url }
}

/// Reads a contributor of the format's shape; `None` for a value of another shape.
pub fn parse_contributor(n: &Node, shape: ContributorShape, url_key: &str) -> (r: Option<Contributor>)
    ensures
        match r {
            Some(c) => contributor_of(*n, shape, url_key@) == Some(c@),
            None => contributor_of(*n, shape, url_key@) is None,
        },
{
    match n {
        Node::Str(s) => match shape {
            ContributorShape::Text => Some(parse_person(s.as_str())),
            ContributorShape::Table => None,
        },
        Node::Table(_) => match shape {
            ContributorShape::Table => Some(
                Contributor { name: n.text("name"), email: n.text("email"), url: n.text(url_key) },
            ),
            ContributorShape::Text => None,
        },
        _ => None,
    }
}

pub fn parse_contributors(items: &Vec<Node>, shape: ContributorShape, url_key: &str) -> (r: Contributors)
    ensures
        r@ == contributor_list(items@, shape, url_key@),
{
    let mut out: Vec<Contributor> = Vec::new();
    let mut i: usize = 0;
    while i < items.len()
        invariant
            i <= items@.len(),
            out@.map_values(|c: Contributor| c@) == contributor_list(
                items@.subrange(0, i as int),
                shape,
                url_key@,
            ),
        decreases items.len() - i,
    {
        let ghost before = out@;
        assert(items@.subrange(0, i + 1).drop_last() =~= items@.subrange(0, i as int));
        match parse_contributor(&items[i], shape, url_key) {
            Some(c) => {
                out.push(c);
                assert(out@.map_values(|c: Contributor| c@) =~= before.map_values(
                    |c: Contributor| c@,
                ).push(c@));
            },
            None => {},
        }
        i = i + 1;
    }
    assert(items@.subrange(0, items@.len() as int) =~= items@);
    Contributors(out)
}

/// Whether an optional text holds the keyword of funding platform `t`.
pub open spec fn mentions(o: Option<Seq<char>>, t: FundingType) -> bool {
    match o {
        Some(x) => has_infix(x, t.spec_name()),
        None => false,
    }
}

/// The first platform of `ts` that the url or the type text mentions.
pub open spec fn first_funding(
    ts: Seq<FundingType>,
    url: Option<Seq<char>>,
    kind: Option<Seq<char>>,
) -> Option<FundingType>
    decreases ts.len(),
{
    if ts.len() == 0 {
        None
    } else if mentions(url, ts[0]) || mentions(kind, ts[0]) {
        Some(ts[0])
    } else {
        first_funding(ts.drop_first(), url, kind)
    }
}

/// The url of a funding entry: the entry itself where it is a string.
pub open spec fn funding_url(n: Node) -> Option<Seq<char>> {
    match n {
        Node::Str(_) => text_of(Some(n)),
        Node::Table(_) => text_of(member(n, "url"@)),
        _ => None,
    }
}

pub open spec fn funding_kind(n: Node) -> Option<Seq<char>> {
    match n {
        Node::Table(_) => text_of(member(n, "type"@)),
        _ => None,
    }
}

/// A funding entry, with its platform inferred from its url and type.
pub open spec fn funding_of(n: Node) -> Option<FundingView> {
    match first_funding(funding_types(), funding_url(n), funding_kind(n)) {
        Some(t) => Some(FundingView { f_type: t, url: funding_url(n) }),
        None => None,
    }
}

pub open spec fn funding_list(items: Seq<Node>) -> Seq<FundingView>
    decreases items.len(),
{
    if items.len() == 0 {
        Seq::empty()
    } else {
        let rest = funding_list(items.drop_last());
        match funding_of(items.last()) {
            Some(f) => rest.push(f),
            None => rest,
        }
    }
}

fn mentions_type(o: &Option<String>, t: FundingType) -> (r: bool)
    ensures
        r == mentions(opt_view(*o), t),
{
    match o {
        Some(x) => contains(x.as_str(), t.to_string()),
        None => false,
    }
}

/// The first platform, in declaration order, that the url or the type mentions.
pub fn infer_funding_type(url: &Option<String>, kind: &Option<String>) -> (r: Option<FundingType>)
    ensures
        r == first_funding(funding_types(), opt_view(*url), opt_view(*kind)),
{
    let all = FundingType::all();
    let mut i: usize = 0;
    assert(funding_types().subrange(0, 6) =~= funding_types());
    while i < all.len()
        invariant
            i <= all@.len(),
            all@ == funding_types(),
            first_funding(funding_types(), opt_view(*url), opt_view(*kind)) == first_funding(
                funding_types().subrange(i as int, 6),
                opt_view(*url),
                opt_view(*kind),
            ),
        decreases all.len() - i,
    {
        let t = all[i];
        let ghost rest = funding_types().subrange(i as int, 6);
        assert(rest[0] == t);
        if mentions_type(url, t) || mentions_type(kind, t) {
            return Some(t);
        }
        assert(rest.drop_first() =~= funding_types().subrange(i + 1, 6));
        i = i + 1;
    }
    None
}

/// Reads a funding entry; `None` where no platform can be inferred.
pub fn parse_funding(n: &Node) -> (r: Option<Funding>)
    ensures
        match r {
            Some(f) => funding_of(*n) == Some(f@),
            None => funding_of(*n) is None,
        },
{
    let url = match n {
        Node::Str(s) => if s.unicode_len() > 0 {
            Some(s.clone())
        } else {
            None
        },
        Node::Table(_) => n.text("url"),
        _ => None,
    };
    let kind = match n {
        Node::Table(_) => n.text("type"),
        _ => None,
    };
    match infer_funding_type(&url, &kind) {
        Some(t) => Some(Funding { f_type: t, url }),
        None => None,
    }
}

pub fn parse_fundings(items: &Vec<Node>) -> (r: Fundings)
    ensures
        r@ == funding_list(items@),
{
    let mut out: Vec<Funding> = Vec::new();
    let mut i: usize = 0;
    while i < items.len()
        invariant
            i <= items@.len(),
            out@.map_values(|f: Funding| f@) == funding_list(items@.subrange(0, i as int)),
        decreases items.len() - i,
    {
        let ghost before = out@;
        assert(items@.subrange(0, i + 1).drop_last() =~= items@.subrange(0, i as int));
        match parse_funding(&items[i]) {
            Some(f) => {
                out.push(f);
                assert(out@.map_values(|f: Funding| f@) =~= before.map_values(|f: Funding| f@).push(
                    f@,
                ));
            },
            None => {},
        }
        i = i + 1;
    }
    assert(items@.subrange(0, items@.len() as int) =~= items@);
    Fundings(out)
}

/// The strings among `items` that are not empty, in order.
pub open spec fn keyword_list(items: Seq<Node>) -> Seq<Seq<char>>
    decreases items.len(),
{
    if items.len() == 0 {
        Seq::empty()
    } else {
        let rest = keyword_list(items.drop_last());
        match text_of(Some(items.last())) {
            Some(k) => rest.push(k),
            None => rest,
        }
    }
}

pub fn parse_keywords(items: &Vec<Node>) -> (r: Vec<String>)
    ensures
        r@.map_values(|s: String| s@) == keyword_list(items@),
{
    let mut out: Vec<String> = Vec::new();
    let mut i: usize = 0;
    while i < items.len()
        invariant
            i <= items@.len(),
            out@.map_values(|s: String| s@) == keyword_list(items@.subrange(0, i as int)),
        decreases items.len() - i,
    {
        let ghost before = out@;
        assert(items@.subrange(0, i + 1).drop_last() =~= items@.subrange(0, i as int));
        match &items[i] {
            Node::Str(s) => {
                if s.unicode_len() > 0 {
                    out.push(s.clone());
                    assert(out@.map_values(|s: String| s@) =~= before.map_values(|s: String| s@).push(
                        s@,
                    ));
                }
            },
            _ => {},
        }
        i = i + 1;
    }
    assert(items@.subrange(0, items@.len() as int) =~= items@);
    out
}

} // verus!
