//! Remote repository URLs: their shape, owner, name and hosting platform.

use crate::text::{occurs_at, 
    after_last, contains, ends_with, find_after_last, find_char, first_index, has_infix,
    has_prefix, has_suffix, last_segment, lemma_after_last, lemma_first_index, starts_with,
    substring, trim, trimmed, lemma_first_index_concat, lemma_first_index_absent,
    lemma_trimmed_unchanged,
};
use vstd::prelude::*;

verus! {

/// Where a repository is hosted.
#[derive(Debug, Clone, Copy, PartialEq, Eq, Structural)]
pub enum RepositoryPlatform {
    Github,
    Gitlab,
    Bitbucket,
    SelfHosted,
    Unknown,
}

/// The platform that a host name points to.
pub open spec fn platform_of(host: Seq<char>) -> RepositoryPlatform {
    if has_infix(host, "github"@) {
        RepositoryPlatform::Github
    } else if has_infix(host, "gitlab"@) {
        RepositoryPlatform::Gitlab
    } else if has_infix(host, "bitbucket"@) {
        RepositoryPlatform::Bitbucket
    } else {
        RepositoryPlatform::Unknown
    }
}

impl RepositoryPlatform {
    pub open spec fn spec_name(self) -> Seq<char> {
        match self {
            RepositoryPlatform::Github => "github"@,
            RepositoryPlatform::Gitlab => "gitlab"@,
            RepositoryPlatform::Bitbucket => "bitbucket"@,
            RepositoryPlatform::SelfHosted => "self-hosted"@,
            RepositoryPlatform::Unknown => "unknown"@,
        }
    }

    pub fn to_string(&self) -> (r: &'static str)
        ensures
            r@ == self.spec_name(),
    {
        match self {
            RepositoryPlatform::Github => "github",
            RepositoryPlatform::Gitlab => "gitlab",
            RepositoryPlatform::Bitbucket => "bitbucket",
            RepositoryPlatform::SelfHosted => "self-hosted",
            RepositoryPlatform::Unknown => "unknown",
        }
    }

    /// The platform of a host name, by the platform names that it contains.
    pub fn from_str(host: &str) -> (r: RepositoryPlatform)
        ensures
            r == platform_of(host@),
    {
        if contains(host, "github") {
            RepositoryPlatform::Github
        } else if contains(host, "gitlab") {
            RepositoryPlatform::Gitlab
        } else if contains(host, "bitbucket") {
            RepositoryPlatform::Bitbucket
        } else {
            RepositoryPlatform::Unknown
        }
    }
}

/// `s` without a trailing `.git`.
pub open spec fn without_git(s: Seq<char>) -> Seq<char> {
    if has_suffix(s, ".git"@) {
        s.subrange(0, s.len() - ".git"@.len())
    } else {
        s
    }
}

/// What follows `git@` in an SSH address.
pub open spec fn ssh_tail(u: Seq<char>) -> Seq<char> {
    u.subrange("git@"@.len() as int, u.len() as int)
}

/// `git@host:owner/name.git`: a host without `:` or `/`, an owner without `/`,
/// and a name without `.`, none of them empty.
pub open spec fn is_ssh_url(u: Seq<char>) -> bool {
    let t = ssh_tail(u);
    let h = first_index(t, ':');
    let path = t.subrange(h + 1, t.len() as int);
    let body = without_git(path);
    let p = first_index(body, '/');
    &&& has_prefix(u, "git@"@)
    &&& 0 < h < t.len()
    &&& first_index(t, '/') > h
    &&& has_suffix(path, ".git"@)
    &&& 0 < p
    &&& p + 1 < body.len()
    &&& first_index(body.subrange(p + 1, body.len() as int), '.') == body.len() - p - 1
}

/// The length of a leading `https://` or `http://`, 0 where there is none.
pub open spec fn scheme_len(u: Seq<char>) -> int {
    if has_prefix(u, "https://"@) {
        "https://"@.len() as int
    } else if has_prefix(u, "http://"@) {
        "http://"@.len() as int
    } else {
        0
    }
}

pub open spec fn https_tail(u: Seq<char>) -> Seq<char> {
    u.subrange(scheme_len(u), u.len() as int)
}

/// `http(s)://host/owner/name`: three parts, none empty and none with `/`.
pub open spec fn is_https_url(u: Seq<char>) -> bool {
    let t = https_tail(u);
    let a = first_index(t, '/');
    let r2 = t.subrange(a + 1, t.len() as int);
    let b = first_index(r2, '/');
    let r3 = r2.subrange(b + 1, r2.len() as int);
    &&& scheme_len(u) > 0
    &&& 0 < a < t.len()
    &&& 0 < b < r2.len()
    &&& r3.len() > 0
    &&& first_index(r3, '/') == r3.len()
}

pub struct RepositoryView {
    pub url: Seq<char>,
    pub name: Option<Seq<char>>,
    pub sign: Option<Seq<char>>,
    pub platform: RepositoryPlatform,
}

/// The repository that a remote address describes.
pub open spec fn parse_repository(raw: Seq<char>) -> RepositoryView {
    let u = trimmed(raw);
    if is_ssh_url(u) {
        let t = ssh_tail(u);
        let h = first_index(t, ':');
        let host = t.subrange(0, h);
        let sign = without_git(t.subrange(h + 1, t.len() as int));
        RepositoryView {
            url: "https://"@ + host + "/"@ + sign,
            name: Some(last_segment(sign, '/')),
            sign: Some(sign),
            platform: platform_of(host),
        }
    } else if is_https_url(u) {
        let t = https_tail(u);
        let a = first_index(t, '/');
        let host = t.subrange(0, a);
        let sign = without_git(t.subrange(a + 1, t.len() as int));
        RepositoryView {
            url: "https://"@ + without_git(t),
            name: Some(last_segment(sign, '/')),
            sign: Some(sign),
            platform: platform_of(host),
        }
    } else {
        RepositoryView { url: u, name: None, sign: None, platform: RepositoryPlatform::Unknown }
    }
}

/// A remote repository of the project.
#[derive(Debug, Clone)]
pub struct Repository {
    /// The address, in canonical `https` form without a trailing `.git` where it is well formed.
    pub url: String,
    /// The last component of `sign`.
    pub name: Option<String>,
    /// The `owner/name` part of the address.
    pub sign: Option<String>,
    pub platform: RepositoryPlatform,
}

impl View for Repository {
    type V = RepositoryView;

    open spec fn view(&self) -> RepositoryView {
        RepositoryView {
            url: self.url@,
            name: crate::text::opt_view(self.name),
            sign: crate::text::opt_view(self.sign),
            platform: self.platform,
        }
    }
}

fn strip_git(s: &str) -> (r: String)
    ensures
        r@ == without_git(s@),
{
    let n = s.unicode_len();
    if ends_with(s, ".git") {
        substring(s, 0, n - ".git".unicode_len())
    } else {
        String::from_str(s)
    }
}

fn ssh_shape(u: &str) -> (r: bool)
    ensures
        r == is_ssh_url(u@),
{
    if !starts_with(u, "git@") {
        return false;
    }
    let n = u.unicode_len();
    let t = substring(u, "git@".unicode_len(), n);
    let t = t.as_str();
    let tn = t.unicode_len();
    let h = find_char(t, ':');
    if h == 0 || h >= tn || find_char(t, '/') <= h {
        return false;
    }
    proof {
        lemma_first_index(t@, ':');
    }
    let path = substring(t, h + 1, tn);
    if !ends_with(path.as_str(), ".git") {
        return false;
    }
    let body = strip_git(path.as_str());
    let body = body.as_str();
    let bn = body.unicode_len();
    let p = find_char(body, '/');
    proof {
        lemma_first_index(body@, '/');
    }
    if p == 0 || p + 1 >= bn {
        return false;
    }
    let last = substring(body, p + 1, bn);
    find_char(last.as_str(), '.') == bn - p - 1
}

fn https_shape(u: &str) -> (r: bool)
    ensures
        r == is_https_url(u@),
{
    let n = u.unicode_len();
    let s: usize = if starts_with(u, "https://") {
        "https://".unicode_len()
    } else if starts_with(u, "http://") {
        "http://".unicode_len()
    } else {
        0
    };
    if s == 0 {
        return false;
    }
    let t = substring(u, s, n);
    let t = t.as_str();
    let tn = t.unicode_len();
    let a = find_char(t, '/');
    proof {
        lemma_first_index(t@, '/');
    }
    if a == 0 || a >= tn {
        return false;
    }
    let r2 = substring(t, a + 1, tn);
    let r2 = r2.as_str();
    let n2 = r2.unicode_len();
    let b = find_char(r2, '/');
    proof {
        lemma_first_index(r2@, '/');
    }
    if b == 0 || b >= n2 {
        return false;
    }
    let r3 = substring(r2, b + 1, n2);
    let r3 = r3.as_str();
    r3.unicode_len() > 0 && find_char(r3, '/') == r3.unicode_len()
}

fn last_part(s: &str) -> (r: String)
    ensures
        r@ == last_segment(s@, '/'),
{
    let k = find_after_last(s, '/');
    proof {
        lemma_after_last(s@, '/');
    }
    substring(s, k, s.unicode_len())
}

impl Repository {
    /// A copy of this repository.
    pub fn duplicate(&self) -> (r: Repository)
        ensures
            r == *self,
    {
        Repository {
            url: self.url.clone(),
            name: self.name.clone(),
            sign: self.sign.clone(),
            platform: self.platform,
        }
    }

    /// Identifies the repository behind a remote address; an address of
    /// neither accepted shape keeps its trimmed text and nothing else.
    pub fn new(url: String) -> (r: Repository)
        ensures
            r@ == parse_repository(url@),
    {
        let u = trim(url);
        let us = u.as_str();
        let n = us.unicode_len();
        if ssh_shape(us) {
            let t = substring(us, "git@".unicode_len(), n);
            let ts = t.as_str();
            let tn = ts.unicode_len();
            let h = find_char(ts, ':');
            let host = substring(ts, 0, h);
            let path = substring(ts, h + 1, tn);
            let sign = strip_git(path.as_str());
            let name = last_part(sign.as_str());
            let platform = RepositoryPlatform::from_str(host.as_str());
            let full = String::from_str("https://").concat(host.as_str()).concat("/").concat(
                sign.as_str(),
            );
            Repository { url: full, name: Some(name), sign: Some(sign), platform }
        } else if https_shape(us) {
            let s: usize = if starts_with(us, "https://") {
                "https://".unicode_len()
            } else {
                "http://".unicode_len()
            };
            let t = substring(us, s, n);
            let ts = t.as_str();
            let tn = ts.unicode_len();
            let a = find_char(ts, '/');
            proof {
                lemma_first_index(ts@, '/');
            }
            let host = substring(ts, 0, a);
            let path = substring(ts, a + 1, tn);
            let sign = strip_git(path.as_str());
            let name = last_part(sign.as_str());
            let platform = RepositoryPlatform::from_str(host.as_str());
            let url = String::from_str("https://").concat(strip_git(ts).as_str());
            Repository { url, name: Some(name), sign: Some(sign), platform }
        } else {
            Repository { url: u, name: None, sign: None, platform: RepositoryPlatform::Unknown }
        }
    }
}

pub open spec fn no_char(s: Seq<char>, c: char) -> bool {
    forall|i: int| 0 <= i < s.len() ==> s[i] != c
}

/// `https://host/owner/repo.git` names repository `repo` of `owner` on the
/// host's platform, at the same address without `.git`.
#[verifier::rlimit(80)]
pub proof fn lemma_https_round_trip(host: Seq<char>, owner: Seq<char>, repo: Seq<char>)
    requires
        host.len() > 0,
        owner.len() > 0,
        repo.len() > 0,
        no_char(host, '/'),
        no_char(owner, '/'),
        no_char(repo, '/'),
    ensures
        parse_repository("https://"@ + host + "/"@ + owner + "/"@ + repo + ".git"@) == (RepositoryView {
            url: "https://"@ + host + "/"@ + owner + "/"@ + repo,
            name: Some(repo),
            sign: Some(owner + "/"@ + repo),
            platform: platform_of(host),
        }),
{
    reveal_strlit("https://");
    reveal_strlit("http://");
    reveal_strlit("git@");
    reveal_strlit("/");
    reveal_strlit(".git");
    let tail = host + "/"@ + owner + "/"@ + repo + ".git"@;
    let u = "https://"@ + tail;
    let written = "https://"@ + host + "/"@ + owner + "/"@ + repo + ".git"@;
    assert(written =~= u);
    assert(u[0] == 'h');
    assert(u.last() == 't');
    lemma_trimmed_unchanged(u);
    assert(!has_prefix(u, "git@"@)) by {
        assert(u.subrange(0, 4)[0] != "git@"@[0]);
    }
    assert(u.subrange(0, 8) =~= "https://"@);
    assert(https_tail(u) =~= tail);
    lemma_first_index_absent(host, '/');
    lemma_first_index_concat(host, "/"@ + owner + "/"@ + repo + ".git"@, '/');
    assert(tail =~= host + ("/"@ + owner + "/"@ + repo + ".git"@));
    assert(("/"@ + owner + "/"@ + repo + ".git"@)[0] == '/');
    let a = host.len() as int;
    assert(first_index(tail, '/') == a);
    let r2 = owner + "/"@ + repo + ".git"@;
    assert(tail.subrange(a + 1, tail.len() as int) =~= r2);
    assert(tail.subrange(0, a) =~= host);
    lemma_first_index_absent(owner, '/');
    lemma_first_index_concat(owner, "/"@ + repo + ".git"@, '/');
    assert(r2 =~= owner + ("/"@ + repo + ".git"@));
    assert(("/"@ + repo + ".git"@)[0] == '/');
    let b = owner.len() as int;
    assert(first_index(r2, '/') == b);
    let r3 = repo + ".git"@;
    assert(r2.subrange(b + 1, r2.len() as int) =~= r3);
    lemma_first_index_absent(r3, '/');
    assert(is_https_url(u));
    assert(r2.subrange(r2.len() - 4, r2.len() as int) =~= ".git"@);
    let sign = owner + "/"@ + repo;
    assert(r2.subrange(0, r2.len() - 4) =~= sign);
    assert(without_git(r2) == sign);
    assert(tail.subrange(tail.len() - 4, tail.len() as int) =~= ".git"@);
    assert(tail.subrange(0, tail.len() - 4) =~= host + "/"@ + owner + "/"@ + repo);
    assert(has_suffix(tail, ".git"@));
    assert(without_git(tail) =~= host + "/"@ + owner + "/"@ + repo);
    assert("https://"@ + (host + "/"@ + owner + "/"@ + repo) =~= "https://"@ + host + "/"@ + owner + "/"@ + repo);
    lemma_after_last(sign, '/');
    assert(sign[b] == '/');
    assert(after_last(sign, '/') == b + 1) by {
        let k = after_last(sign, '/');
        if k < b + 1 {
            assert(sign[b] != '/');
        }
        if k > b + 1 {
            assert(sign[k - 1] == repo[k - 1 - b - 1]);
        }
    }
    assert(last_segment(sign, '/') =~= repo);
}

proof fn lemma_ssh_shape(host: Seq<char>, owner: Seq<char>, repo: Seq<char>)
    requires
        host.len() > 0,
        owner.len() > 0,
        repo.len() > 0,
        no_char(host, '/'),
        no_char(host, ':'),
        no_char(owner, '/'),
        no_char(repo, '/'),
        no_char(repo, '.'),
    ensures
        ({
            let u = "git@"@ + host + ":"@ + owner + "/"@ + repo + ".git"@;
            let t = ssh_tail(u);
            let h = first_index(t, ':');
            &&& trimmed(u) == u
            &&& is_ssh_url(u)
            &&& t.subrange(0, h) == host
            &&& without_git(t.subrange(h + 1, t.len() as int)) == owner + "/"@ + repo
        }),
{
    reveal_strlit("git@");
    reveal_strlit(":");
    reveal_strlit("/");
    reveal_strlit(".git");
    let tail = host + ":"@ + owner + "/"@ + repo + ".git"@;
    let u = "git@"@ + tail;
    let written = "git@"@ + host + ":"@ + owner + "/"@ + repo + ".git"@;
    assert(written =~= u);
    assert(u[0] == 'g');
    assert(u.last() == 't');
    lemma_trimmed_unchanged(u);
    assert(u.subrange(0, 4) =~= "git@"@);
    assert(ssh_tail(u) =~= tail);
    let path = owner + "/"@ + repo + ".git"@;
    assert(tail =~= host + (":"@ + path));
    lemma_first_index_absent(host, ':');
    lemma_first_index_concat(host, ":"@ + path, ':');
    assert((":"@ + path)[0] == ':');
    let h = host.len() as int;
    assert(first_index(tail, ':') == h);
    lemma_first_index_absent(host, '/');
    lemma_first_index_concat(host, ":"@ + path, '/');
    assert((":"@ + path)[0] != '/');
    assert((":"@ + path).drop_first() =~= path);
    lemma_first_index(path, '/');
    assert(first_index(tail, '/') > h);
    assert(tail.subrange(h + 1, tail.len() as int) =~= path);
    assert(tail.subrange(0, h) =~= host);
    assert(path.subrange(path.len() - 4, path.len() as int) =~= ".git"@);
    let body = owner + "/"@ + repo;
    assert(path.subrange(0, path.len() - 4) =~= body);
    assert(without_git(path) == body);
    lemma_first_index_absent(owner, '/');
    lemma_first_index_concat(owner, "/"@ + repo, '/');
    assert(body =~= owner + ("/"@ + repo));
    assert(("/"@ + repo)[0] == '/');
    let p = owner.len() as int;
    assert(first_index(body, '/') == p);
    assert(body.subrange(p + 1, body.len() as int) =~= repo);
    lemma_first_index_absent(repo, '.');
    assert(is_ssh_url(u));
    assert(written == u);
}

/// `git@host:owner/repo.git` names the same repository as its `https` form.
pub proof fn lemma_ssh_round_trip(host: Seq<char>, owner: Seq<char>, repo: Seq<char>)
    requires
        host.len() > 0,
        owner.len() > 0,
        repo.len() > 0,
        no_char(host, '/'),
        no_char(host, ':'),
        no_char(owner, '/'),
        no_char(repo, '/'),
        no_char(repo, '.'),
    ensures
        parse_repository("git@"@ + host + ":"@ + owner + "/"@ + repo + ".git"@) == (RepositoryView {
            url: "https://"@ + host + "/"@ + owner + "/"@ + repo,
            name: Some(repo),
            sign: Some(owner + "/"@ + repo),
            platform: platform_of(host),
        }),
{
    reveal_strlit("/");
    lemma_ssh_shape(host, owner, repo);
    let body = owner + "/"@ + repo;
    let p = owner.len() as int;
    assert(body[p] == '/');
    lemma_after_last(body, '/');
    assert(body[p] == '/');
    assert(after_last(body, '/') == p + 1) by {
        let k = after_last(body, '/');
        if k < p + 1 {
            assert(body[p] != '/');
        }
        if k > p + 1 {
            assert(body[k - 1] == repo[k - 1 - p - 1]);
        }
    }
    assert(last_segment(body, '/') =~= repo);
    assert("https://"@ + host + "/"@ + body =~= "https://"@ + host + "/"@ + owner + "/"@ + repo);
}

/// A host whose name holds `github` is GitHub's.
pub proof fn lemma_github_host()
    ensures
        platform_of("github.com"@) == RepositoryPlatform::Github,
{
    reveal_strlit("github.com");
    reveal_strlit("github");
    assert(occurs_at("github.com"@, "github"@, 0)) by {
        assert("github.com"@.subrange(0, 6) =~= "github"@);
    }
}

/// `https://github.com/owner/repo.git` is a GitHub repository named `repo`,
/// signed `owner/repo`, at `https://github.com/owner/repo`; its SSH form
/// `git@github.com:owner/repo.git` gives the same.
pub proof fn lemma_github_round_trip(owner: Seq<char>, repo: Seq<char>)
    requires
        owner.len() > 0,
        repo.len() > 0,
        no_char(owner, '/'),
        no_char(repo, '/'),
    ensures
        parse_repository("https://"@ + "github.com"@ + "/"@ + owner + "/"@ + repo + ".git"@) == (RepositoryView {
            url: "https://"@ + "github.com"@ + "/"@ + owner + "/"@ + repo,
            name: Some(repo),
            sign: Some(owner + "/"@ + repo),
            platform: RepositoryPlatform::Github,
        }),
        no_char(repo, '.') ==> parse_repository("git@"@ + "github.com"@ + ":"@ + owner + "/"@ + repo + ".git"@) == (RepositoryView {
            url: "https://"@ + "github.com"@ + "/"@ + owner + "/"@ + repo,
            name: Some(repo),
            sign: Some(owner + "/"@ + repo),
            platform: RepositoryPlatform::Github,
        }),
{
    reveal_strlit("github.com");
    assert(no_char("github.com"@, '/'));
    assert(no_char("github.com"@, ':'));
    lemma_github_host();
    lemma_https_round_trip("github.com"@, owner, repo);
    if no_char(repo, '.') {
        lemma_ssh_round_trip("github.com"@, owner, repo);
    }
}

} // verus!
