use vstd::prelude::*;

use crate::error::GreptileError;

verus! {

/// A repository as the service knows it: hosting provider, branch and
/// `owner/name` path.
#[derive(Clone, Debug, PartialEq, Eq)]
pub struct GreptileRepository {
    pub remote: String,
    pub branch: String,
    pub repository: String,
}

/// The composite key `remote:branch:repository`.
pub open spec fn repo_id_of(remote: Seq<char>, branch: Seq<char>, repository: Seq<char>) -> Seq<
    char,
> {
    remote + ":"@ + branch + ":"@ + repository
}

impl GreptileRepository {
    pub fn new(remote: String, branch: String, repository: String) -> (r: Self)
        ensures
            r.remote == remote,
            r.branch == branch,
            r.repository == repository,
    {
        GreptileRepository { remote, branch, repository }
    }

    /// The identity used for a repository named on the command line: the
    /// `main` branch on GitHub.
    pub fn github_main(repository: String) -> (r: Self)
        ensures
            r.remote@ == "github"@,
            r.branch@ == "main"@,
            r.repository == repository,
    {
        GreptileRepository {
            remote: String::from_str("github"),
            branch: String::from_str("main"),
            repository,
        }
    }

    pub fn as_repo_id(&self) -> (r: String)
        ensures
            r@ == repo_id_of(self.remote@, self.branch@, self.repository@),
    {
        let mut id = self.remote.clone();
        id.append(":");
        id.append(self.branch.as_str());
        id.append(":");
        id.append(self.repository.as_str());
        id
    }
}

/// A character that may appear in an owner or a repository name.
pub open spec fn is_segment_char(c: char) -> bool {
    ('a' <= c && c <= 'z') || ('A' <= c && c <= 'Z') || ('0' <= c && c <= '9') || c == '_' || c
        == '.' || c == '-'
}

/// A non-empty run of segment characters.
pub open spec fn is_segment(s: Seq<char>) -> bool {
    s.len() > 0 && forall|i: int| 0 <= i < s.len() ==> is_segment_char(#[trigger] s[i])
}

/// `owner/name`: two segments around a single slash.
pub open spec fn is_repo_path(p: Seq<char>) -> bool {
    exists|k: int|
        0 <= k < p.len() && p[k] == '/' && is_segment(#[trigger] p.take(k)) && is_segment(
            p.skip(k + 1),
        )
}

/// The start of a GitHub HTTPS remote URL, with or without `www.`.
pub open spec fn github_prefix(www: bool) -> Seq<char> {
    if www {
        "https://www.github.com/"@
    } else {
        "https://github.com/"@
    }
}

pub open spec fn git_suffix() -> Seq<char> {
    ".git"@
}

pub open spec fn github_url(www: bool, owner: Seq<char>, name: Seq<char>) -> Seq<char> {
    github_prefix(www) + owner + "/"@ + name + git_suffix()
}

pub open spec fn has_prefix(s: Seq<char>, p: Seq<char>) -> bool {
    p.len() <= s.len() && s.take(p.len() as int) == p
}

pub open spec fn has_suffix(s: Seq<char>, p: Seq<char>) -> bool {
    p.len() <= s.len() && s.skip(s.len() - p.len()) == p
}

/// What follows the GitHub prefix of `url`, if it has one.
pub open spec fn after_github_prefix(url: Seq<char>) -> Option<Seq<char>> {
    if has_prefix(url, github_prefix(false)) {
        Some(url.skip(github_prefix(false).len() as int))
    } else if has_prefix(url, github_prefix(true)) {
        Some(url.skip(github_prefix(true).len() as int))
    } else {
        None
    }
}

/// The `owner/name` path of a GitHub HTTPS remote URL; `None` for any URL of
/// another shape.
pub open spec fn repo_path_of_url(url: Seq<char>) -> Option<Seq<char>> {
    match after_github_prefix(url) {
        Some(rest) => {
            if has_suffix(rest, git_suffix()) && is_repo_path(
                rest.take(rest.len() - git_suffix().len()),
            ) {
                Some(rest.take(rest.len() - git_suffix().len()))
            } else {
                None
            }
        },
        None => None,
    }
}

/// Whether `s` holds `p` from position `from` on.
fn holds_at(s: &str, from: usize, p: &str) -> (r: bool)
    requires
        from <= s@.len(),
    ensures
        r == (from + p@.len() <= s@.len() && s@.subrange(from as int, from + p@.len()) == p@),
{
    let n = s.unicode_len();
    let m = p.unicode_len();
    if m > n - from {
        return false;
    }
    let mut i: usize = 0;
    while i < m
        invariant
            n == s@.len(),
            m == p@.len(),
            from + m <= n,
            i <= m,
            forall|j: int| 0 <= j < i ==> s@[from + j] == p@[j],
        decreases m - i,
    {
        if s.get_char(from + i) != p.get_char(i) {
            assert(s@.subrange(from as int, from + m)[i as int] != p@[i as int]);
            return false;
        }
        i += 1;
    }
    assert(s@.subrange(from as int, from + m) =~= p@);
    true
}

fn is_segment_char_exec(c: char) -> (r: bool)
    ensures
        r == is_segment_char(c),
{
    ('a' <= c && c <= 'z') || ('A' <= c && c <= 'Z') || ('0' <= c && c <= '9') || c == '_' || c
        == '.' || c == '-'
}

proof fn lemma_bad_char_not_repo_path(p: Seq<char>, i: int)
    requires
        0 <= i < p.len(),
        p[i] != '/',
        !is_segment_char(p[i]),
    ensures
        !is_repo_path(p),
{
    assert forall|k: int|
        0 <= k < p.len() && p[k] == '/' implies !(is_segment(#[trigger] p.take(k)) && is_segment(
            p.skip(k + 1),
        )) by {
        if i < k {
            assert(p.take(k)[i] == p[i]);
        } else {
            assert(p.skip(k + 1)[i - k - 1] == p[i]);
        }
    }
}

proof fn lemma_two_slashes_not_repo_path(p: Seq<char>, a: int, b: int)
    requires
        0 <= a < b < p.len(),
        p[a] == '/',
        p[b] == '/',
    ensures
        !is_repo_path(p),
{
    assert forall|k: int|
        0 <= k < p.len() && p[k] == '/' implies !(is_segment(#[trigger] p.take(k)) && is_segment(
            p.skip(k + 1),
        )) by {
        if k < b {
            assert(p.skip(k + 1)[b - k - 1] == '/');
        } else {
            assert(p.take(k)[a] == '/');
        }
    }
}

/// Checks that `url[start..end]` is an `owner/name` path.
fn is_repo_path_at(url: &str, start: usize, end: usize) -> (r: bool)
    requires
        start <= end <= url@.len(),
    ensures
        r == is_repo_path(url@.subrange(start as int, end as int)),
{
    let ghost p = url@.subrange(start as int, end as int);
    let mut slash: usize = end;
    let mut i: usize = start;
    while i < end
        invariant
            start <= i <= end <= url@.len(),
            p == url@.subrange(start as int, end as int),
            forall|j: int| start <= j < i ==> is_segment_char(url@[j]) || url@[j] == '/',
            slash == end ==> forall|j: int| start <= j < i ==> url@[j] != '/',
            slash != end ==> start <= slash < i && url@[slash as int] == '/' && forall|j: int|
                start <= j < i && j != slash ==> url@[j] != '/',
        decreases end - i,
    {
        let c = url.get_char(i);
        if c == '/' {
            if slash != end {
                proof {
                    assert(p[slash - start] == '/');
                    assert(p[i - start] == '/');
                    lemma_two_slashes_not_repo_path(p, slash - start, i - start);
                }
                return false;
            }
            slash = i;
        } else if !is_segment_char_exec(c) {
            proof {
                assert(p[i - start] == c);
                lemma_bad_char_not_repo_path(p, i - start);
            }
            return false;
        }
        i += 1;
    }
    if slash == end {
        assert forall|k: int| 0 <= k < p.len() implies p[k] != '/' by {
            assert(p[k] == url@[start + k]);
        }
        return false;
    }
    let ghost k = slash - start;
    if slash == start {
        assert(p.take(k).len() == 0);
        assert forall|k2: int|
            0 <= k2 < p.len() && p[k2] == '/' implies !(is_segment(#[trigger] p.take(k2))
            && is_segment(p.skip(k2 + 1))) by {
            if k2 != k {
                assert(p[k2] == url@[start + k2]);
            }
        }
        return false;
    }
    if slash + 1 == end {
        assert(p.skip(k + 1).len() == 0);
        assert forall|k2: int|
            0 <= k2 < p.len() && p[k2] == '/' implies !(is_segment(#[trigger] p.take(k2))
            && is_segment(p.skip(k2 + 1))) by {
            if k2 != k {
                assert(p[k2] == url@[start + k2]);
            }
        }
        return false;
    }
    assert forall|j: int| 0 <= j < p.take(k).len() implies is_segment_char(
        #[trigger] p.take(k)[j],
    ) by {
        assert(p.take(k)[j] == url@[start + j]);
    }
    assert forall|j: int| 0 <= j < p.skip(k + 1).len() implies is_segment_char(
        #[trigger] p.skip(k + 1)[j],
    ) by {
        assert(p.skip(k + 1)[j] == url@[start + k + 1 + j]);
    }
    assert(p[k] == '/');
    assert(is_segment(p.take(k)));
    true
}

/// Extracts `owner/name` from a remote URL of the shape
/// `https://github.com/<owner>/<name>.git` (optionally with `www.`). Any
/// other URL, including SSH syntax, another host or a missing `.git`, gives
/// `None`.
pub fn parse_github_remote_url(url: &str) -> (r: Option<String>)
    ensures
        match r {
            Some(path) => repo_path_of_url(url@) == Some(path@),
            None => repo_path_of_url(url@) is None,
        },
{
    let n = url.unicode_len();
    let plain = "https://github.com/";
    let www = "https://www.github.com/";
    let start: usize;
    if holds_at(url, 0, plain) {
        start = plain.unicode_len();
        assert(url@.take(start as int) =~= url@.subrange(0, start as int));
    } else if holds_at(url, 0, www) {
        start = www.unicode_len();
        assert(url@.take(start as int) =~= url@.subrange(0, start as int));
        assert(!has_prefix(url@, github_prefix(false))) by {
            if github_prefix(false).len() <= url@.len() {
                assert(url@.take(github_prefix(false).len() as int) =~= url@.subrange(
                    0,
                    github_prefix(false).len() as int,
                ));
            }
        }
    } else {
        assert(!has_prefix(url@, github_prefix(false))) by {
            if github_prefix(false).len() <= url@.len() {
                assert(url@.take(github_prefix(false).len() as int) =~= url@.subrange(
                    0,
                    github_prefix(false).len() as int,
                ));
            }
        }
        assert(!has_prefix(url@, github_prefix(true))) by {
            if github_prefix(true).len() <= url@.len() {
                assert(url@.take(github_prefix(true).len() as int) =~= url@.subrange(
                    0,
                    github_prefix(true).len() as int,
                ));
            }
        }
        return None;
    }
    let ghost rest = url@.skip(start as int);
    assert(after_github_prefix(url@) == Some(rest));
    let suffix = ".git";
    let m = suffix.unicode_len();
    if n - start < m || !holds_at(url, n - m, suffix) {
        assert(!has_suffix(rest, git_suffix())) by {
            if git_suffix().len() <= rest.len() {
                assert(rest.skip(rest.len() - git_suffix().len()) =~= url@.subrange(
                    n - m,
                    n as int,
                ));
            }
        }
        return None;
    }
    assert(rest.skip(rest.len() - git_suffix().len()) =~= url@.subrange(n - m, n as int));
    assert(rest.take(rest.len() - git_suffix().len()) =~= url@.subrange(
        start as int,
        (n - m) as int,
    ));
    if !is_repo_path_at(url, start, n - m) {
        return None;
    }
    let path = url.substring_char(start, n - m).to_owned();
    Some(path)
}

/// A GitHub HTTPS URL yields exactly the owner and name it was built from.
pub proof fn lemma_github_url_yields_path(www: bool, owner: Seq<char>, name: Seq<char>)
    requires
        is_segment(owner),
        is_segment(name),
    ensures
        repo_path_of_url(github_url(www, owner, name)) == Some(owner + "/"@ + name),
{
    reveal_strlit("https://github.com/");
    reveal_strlit("https://www.github.com/");
    reveal_strlit("/");
    reveal_strlit(".git");
    let url = github_url(www, owner, name);
    let path = owner + "/"@ + name;
    assert(url =~= github_prefix(www) + (path + git_suffix()));
    if www {
        assert(url[8] == 'w');
        assert(!has_prefix(url, github_prefix(false))) by {
            assert(url.take(19)[8] == 'w');
        }
    }
    assert(url.take(github_prefix(www).len() as int) =~= github_prefix(www));
    let rest = url.skip(github_prefix(www).len() as int);
    assert(rest =~= path + git_suffix());
    assert(after_github_prefix(url) == Some(rest));
    assert(rest.skip(rest.len() - 4) =~= git_suffix());
    assert(rest.take(rest.len() - 4) =~= path);
    let k = owner.len() as int;
    assert(path.take(k) =~= owner);
    assert(path.skip(k + 1) =~= name);
    assert(path[k] == '/');
}

/// A URL that does not start with the GitHub HTTPS prefix (another host, SSH
/// syntax, another scheme) or does not end in `.git` yields nothing.
pub proof fn lemma_other_urls_rejected(url: Seq<char>)
    requires
        !(has_prefix(url, github_prefix(false)) || has_prefix(url, github_prefix(true)))
            || !has_suffix(url, git_suffix()),
    ensures
        repo_path_of_url(url) is None,
{
    match after_github_prefix(url) {
        Some(rest) => {
            if has_suffix(rest, git_suffix()) {
                assert(rest.skip(rest.len() - git_suffix().len()) =~= url.skip(
                    url.len() - git_suffix().len(),
                ));
            }
        },
        None => {},
    }
}

/// What reading the `origin` remote of the working copy gave.
#[derive(Clone, Debug, PartialEq, Eq)]
pub enum OriginRemote {
    NoRepository,
    NoRemote,
    NoUrl,
    Url(String),
}

/// The `owner/name` path of the working copy's `origin` remote.
pub fn get_git_repo(origin: OriginRemote) -> (r: Result<String, GreptileError>)
    ensures
        match origin {
            OriginRemote::NoRepository => r matches Err(GreptileError::NoRepository),
            OriginRemote::NoRemote => r matches Err(GreptileError::NoRemote),
            OriginRemote::NoUrl => r matches Err(GreptileError::NoRemoteUrl),
            OriginRemote::Url(url) => match repo_path_of_url(url@) {
                Some(path) => r matches Ok(p) && p@ == path,
                None => r == Err::<String, GreptileError>(GreptileError::UnparseableRemoteUrl(url)),
            },
        },
{
    match origin {
        OriginRemote::NoRepository => Err(GreptileError::NoRepository),
        OriginRemote::NoRemote => Err(GreptileError::NoRemote),
        OriginRemote::NoUrl => Err(GreptileError::NoRemoteUrl),
        OriginRemote::Url(url) => match parse_github_remote_url(url.as_str()) {
            Some(path) => Ok(path),
            None => Err(GreptileError::UnparseableRemoteUrl(url)),
        },
    }
}

/// Two repositories with the same fields have the same key, whenever it is
/// computed.
pub proof fn lemma_repo_id_stable(a: GreptileRepository, b: GreptileRepository)
    requires
        a.remote@ == b.remote@,
        a.branch@ == b.branch@,
        a.repository@ == b.repository@,
    ensures
        repo_id_of(a.remote@, a.branch@, a.repository@) == repo_id_of(
            b.remote@,
            b.branch@,
            b.repository@,
        ),
{
}

} // verus!
