//! What the version-control history says of a project: its remote and the
//! people who committed to it.

use crate::converter::{Contributor, ContributorView, Contributors, ConverterOutput, RecordView, empty_record};
use crate::repository::{parse_repository, Repository, RepositoryPlatform};
use vstd::prelude::*;

verus! {

/// A distinct author and the number of commits that carry it.
pub struct Tally {
    pub name: Seq<char>,
    pub email: Seq<char>,
    pub commits: nat,
}

/// Where the author `(name, email)` stands in `t`; `t`'s length where it does not.
pub open spec fn tally_index(t: Seq<Tally>, name: Seq<char>, email: Seq<char>) -> int
    decreases t.len(),
{
    if t.len() == 0 {
        0
    } else if t[0].name == name && t[0].email == email {
        0
    } else {
        1 + tally_index(t.drop_first(), name, email)
    }
}

/// The distinct `(name, email)` pairs of the commits, in order of first
/// appearance, each with its number of commits.
pub open spec fn tally(authors: Seq<(String, String)>) -> Seq<Tally>
    decreases authors.len(),
{
    if authors.len() == 0 {
        Seq::empty()
    } else {
        let prev = tally(authors.drop_last());
        let n = authors.last().0@;
        let e = authors.last().1@;
        let k = tally_index(prev, n, e);
        if k == prev.len() {
            prev.push(Tally { name: n, email: e, commits: 1 })
        } else {
            prev.update(k, Tally { name: n, email: e, commits: prev[k].commits + 1 })
        }
    }
}

/// The first index of `s` whose count is below `c`; `s`'s length where none is.
pub open spec fn first_below(s: Seq<Tally>, c: nat) -> int
    decreases s.len(),
{
    if s.len() == 0 {
        0
    } else if s[0].commits < c {
        0
    } else {
        1 + first_below(s.drop_first(), c)
    }
}

/// `t` ordered by descending number of commits, authors with equal numbers
/// in order of first appearance.
pub open spec fn ranked(t: Seq<Tally>) -> Seq<Tally>
    decreases t.len(),
{
    if t.len() == 0 {
        Seq::empty()
    } else {
        let prev = ranked(t.drop_last());
        prev.insert(first_below(prev, t.last().commits), t.last())
    }
}

pub open spec fn contributor_of_tally(t: Tally) -> ContributorView {
    ContributorView { name: Some(t.name), email: Some(t.email), url: None }
}

struct Count {
    name: String,
    email: String,
    commits: usize,
}

spec fn counts_view(c: Seq<Count>) -> Seq<Tally> {
    c.map_values(|x: Count| Tally { name: x.name@, email: x.email@, commits: x.commits as nat })
}

proof fn lemma_tally_index(t: Seq<Tally>, name: Seq<char>, email: Seq<char>)
    ensures
        0 <= tally_index(t, name, email) <= t.len(),
        tally_index(t, name, email) < t.len() ==> t[tally_index(t, name, email)].name == name
            && t[tally_index(t, name, email)].email == email,
        forall|j: int|
            0 <= j < tally_index(t, name, email) ==> !(t[j].name == name && t[j].email == email),
    decreases t.len(),
{
    if t.len() > 0 && !(t[0].name == name && t[0].email == email) {
        lemma_tally_index(t.drop_first(), name, email);
        assert forall|j: int| 0 <= j < tally_index(t, name, email) implies !(t[j].name == name
            && t[j].email == email) by {
            if j > 0 {
                assert(t[j] == t.drop_first()[j - 1]);
            }
        }
    }
}

proof fn lemma_first_below(s: Seq<Tally>, c: nat)
    ensures
        0 <= first_below(s, c) <= s.len(),
        first_below(s, c) < s.len() ==> s[first_below(s, c)].commits < c,
        forall|j: int| 0 <= j < first_below(s, c) ==> s[j].commits >= c,
    decreases s.len(),
{
    if s.len() > 0 && s[0].commits >= c {
        lemma_first_below(s.drop_first(), c);
        assert forall|j: int| 0 <= j < first_below(s, c) implies s[j].commits >= c by {
            if j > 0 {
                assert(s[j] == s.drop_first()[j - 1]);
            }
        }
    }
}

proof fn lemma_tally_bounded(authors: Seq<(String, String)>)
    ensures
        tally(authors).len() <= authors.len(),
        forall|j: int| 0 <= j < tally(authors).len() ==> #[trigger] tally(authors)[j].commits <= authors.len(),
    decreases authors.len(),
{
    if authors.len() > 0 {
        lemma_tally_bounded(authors.drop_last());
        lemma_tally_index(tally(authors.drop_last()), authors.last().0@, authors.last().1@);
    }
}

fn count_authors(authors: &Vec<(String, String)>) -> (r: Vec<Count>)
    ensures
        counts_view(r@) == tally(authors@),
{
    let mut counts: Vec<Count> = Vec::new();
    let mut i: usize = 0;
    while i < authors.len()
        invariant
            i <= authors@.len(),
            counts_view(counts@) == tally(authors@.subrange(0, i as int)),
        decreases authors.len() - i,
    {
        let ghost sub = authors@.subrange(0, i + 1);
        assert(sub.drop_last() =~= authors@.subrange(0, i as int));
        proof {
            lemma_tally_bounded(authors@.subrange(0, i as int));
            lemma_tally_index(counts_view(counts@), authors@[i as int].0@, authors@[i as int].1@);
        }
        let name = &authors[i].0;
        let email = &authors[i].1;
        let mut k: usize = 0;
        let mut found = false;
        while !found && k < counts.len()
            invariant
                k <= counts@.len(),
                i < authors@.len(),
                *name == authors@[i as int].0,
                *email == authors@[i as int].1,
                found ==> k < counts@.len() && counts@[k as int].name@ == name@
                    && counts@[k as int].email@ == email@,
                forall|j: int|
                    0 <= j < k ==> !(counts@[j].name@ == name@ && counts@[j].email@ == email@),
                !found ==> k <= counts@.len(),
            decreases counts.len() - k, if found { 0int } else { 1int },
        {
            if counts[k].name.eq(name) && counts[k].email.eq(email) {
                found = true;
            } else {
                k = k + 1;
            }
        }
        assert(k == tally_index(counts_view(counts@), name@, email@)) by {
            let t = counts_view(counts@);
            lemma_tally_index(t, name@, email@);
            let m = tally_index(t, name@, email@);
            if k < m {
                assert(t[k as int].name == counts@[k as int].name@);
                assert(t[k as int].email == counts@[k as int].email@);
            }
            if k > m {
                assert(t[m].name == counts@[m].name@);
                assert(t[m].email == counts@[m].email@);
            }
        }
        if k == counts.len() {
            counts.push(Count { name: name.clone(), email: email.clone(), commits: 1 });
            assert(counts_view(counts@) =~= tally(sub));
        } else {
            let c = counts[k].commits;
            assert(counts_view(counts@)[k as int].commits == c);
            counts[k] = Count { name: name.clone(), email: email.clone(), commits: c + 1 };
            assert(counts_view(counts@) =~= tally(sub));
        }
        i = i + 1;
    }
    assert(authors@.subrange(0, authors@.len() as int) =~= authors@);
    counts
}

/// The contributors of a history of commit authors `(name, email)`, the most
/// active first; equally active ones in order of first appearance.
pub fn rank_contributors(authors: &Vec<(String, String)>) -> (r: Contributors)
    ensures
        r@ == ranked(tally(authors@)).map_values(|t: Tally| contributor_of_tally(t)),
{
    let counts = count_authors(authors);
    let ghost t = counts_view(counts@);
    let mut sorted: Vec<Count> = Vec::new();
    let mut i: usize = 0;
    while i < counts.len()
        invariant
            i <= counts@.len(),
            t == counts_view(counts@),
            counts_view(sorted@) == ranked(t.subrange(0, i as int)),
        decreases counts.len() - i,
    {
        assert(t.subrange(0, i + 1).drop_last() =~= t.subrange(0, i as int));
        let c = counts[i].commits;
        proof {
            lemma_first_below(counts_view(sorted@), c as nat);
        }
        let mut p: usize = 0;
        while p < sorted.len() && sorted[p].commits >= c
            invariant
                p <= sorted@.len(),
                forall|j: int| 0 <= j < p ==> sorted@[j].commits >= c,
            decreases sorted.len() - p,
        {
            p = p + 1;
        }
        assert(p == first_below(counts_view(sorted@), c as nat)) by {
            let s = counts_view(sorted@);
            let f = first_below(s, c as nat);
            if p < f {
                assert(s[p as int].commits >= c);
            }
            if p > f {
                assert(s[f].commits < c);
            }
        }
        let ghost before = sorted@;
        sorted.insert(
            p,
            Count {
                name: counts[i].name.clone(),
                email: counts[i].email.clone(),
                commits: c,
            },
        );
        assert(counts_view(sorted@) =~= counts_view(before).insert(p as int, t[i as int]));
        i = i + 1;
    }
    assert(t.subrange(0, t.len() as int) =~= t);
    let mut out: Vec<Contributor> = Vec::new();
    let mut j: usize = 0;
    while j < sorted.len()
        invariant
            j <= sorted@.len(),
            out@.len() == j,
            forall|k: int|
                0 <= k < j ==> (#[trigger] out@[k])@ == contributor_of_tally(counts_view(sorted@)[k]),
        decreases sorted.len() - j,
    {
        out.push(
            Contributor {
                name: Some(sorted[j].name.clone()),
                email: Some(sorted[j].email.clone()),
                url: None,
            },
        );
        j = j + 1;
    }
    let r = Contributors(out);
    assert(r@ =~= ranked(tally(authors@)).map_values(|t: Tally| contributor_of_tally(t)));
    r
}

/// Whether the contributors of a repository come from its history: not for
/// GitHub, which shows them itself.
pub open spec fn reads_history(remote: Seq<char>) -> bool {
    parse_repository(remote).platform != RepositoryPlatform::Github
}

pub fn needs_history(remote_url: &str) -> (r: bool)
    ensures
        r == reads_history(remote_url@),
{
    let repo = Repository::new(String::from_str(remote_url));
    repo.platform != RepositoryPlatform::Github
}

/// The record of the version control of the project at `project_location`,
/// with remote address `remote_url` and commit authors `authors`.
pub fn git_record(project_location: &str, remote_url: &str, authors: &Vec<(String, String)>) -> (r:
    ConverterOutput)
    ensures
        r@ == (RecordView {
            name: parse_repository(remote_url@).name,
            repository: Some(parse_repository(remote_url@)),
            contributors: if reads_history(remote_url@) {
                Some(ranked(tally(authors@)).map_values(|t: Tally| contributor_of_tally(t)))
            } else {
                None
            },
            ..empty_record(project_location@ + ".git"@)
        }),
{
    let repo = Repository::new(String::from_str(remote_url));
    let contributors = if repo.platform != RepositoryPlatform::Github {
        Some(rank_contributors(authors))
    } else {
        None
    };
    ConverterOutput {
        source_config_file_path: String::from_str(project_location).concat(".git"),
        name: repo.name.clone(),
        description: None,
        version: None,
        contributors,
        license: None,
        keywords: None,
        repository: Some(repo),
        dependencies: None,
        dev_dependencies: None,
        build_dependencies: None,
        funding: None,
    }
}

} // verus!
