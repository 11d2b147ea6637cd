use vstd::prelude::*;
use vstd::utf8::encode_utf8;

use crate::error::GreptileError;

verus! {

/// Environment variable that holds the source-control access token.
pub const GITHUB_TOKEN_VAR: &'static str = "GITHUB_ACCESS_TOKEN";

/// Environment variable that holds the service API token.
pub const API_TOKEN_VAR: &'static str = "GREPTILE_API_TOKEN";

pub const REPOSITORIES_URL: &'static str = "https://api.greptile.com/v2/repositories";

pub const QUERY_URL: &'static str = "https://api.greptile.com/v2/query";

/// The two credentials that every call to the service carries.
#[derive(Clone, Debug, PartialEq, Eq)]
pub struct GreptileClient {
    pub github_token: String,
    pub greptile_api_token: String,
}

#[derive(Clone, Copy, Debug, PartialEq, Eq, Structural)]
pub enum HttpMethod {
    Get,
    Post,
}

/// One call to make: method, URL, the bearer token, and the access-token
/// header where the call carries one. A body, if any, is the JSON form of
/// the request object it was made for.
#[derive(Clone, Debug, PartialEq, Eq)]
pub struct ApiRequest {
    pub method: HttpMethod,
    pub url: String,
    pub bearer_token: String,
    pub github_token: Option<String>,
}

/// What the service answered: status code and body text.
#[derive(Clone, Debug, PartialEq, Eq)]
pub struct HttpResponse {
    pub status: u16,
    pub body: String,
}

/// A character kept as it is in a URL path segment.
pub open spec fn is_unreserved(c: char) -> bool {
    ('a' <= c && c <= 'z') || ('A' <= c && c <= 'Z') || ('0' <= c && c <= '9') || c == '-' || c
        == '.' || c == '_' || c == '~'
}

pub open spec fn hex_digits() -> Seq<char> {
    "0123456789ABCDEF"@
}

/// Each byte as `%25XX`: its percent-escape `%XX`, escaped once more.
pub open spec fn escaped_bytes(bs: Seq<u8>) -> Seq<char>
    decreases bs.len(),
{
    if bs.len() == 0 {
        Seq::empty()
    } else {
        escaped_bytes(bs.drop_last()) + "%25"@ + seq![
            hex_digits()[bs.last() as int / 16],
            hex_digits()[bs.last() as int % 16],
        ]
    }
}

pub open spec fn encoded_char(c: char) -> Seq<char> {
    if is_unreserved(c) {
        seq![c]
    } else {
        escaped_bytes(encode_utf8(seq![c]))
    }
}

/// A repository id as the service expects it in a URL path: percent-encoded
/// twice, so `:` becomes `%253A` and `/` becomes `%252F`.
pub open spec fn encoded_repo_id(s: Seq<char>) -> Seq<char>
    decreases s.len(),
{
    if s.len() == 0 {
        Seq::empty()
    } else {
        encoded_repo_id(s.drop_last()) + encoded_char(s.last())
    }
}

fn is_unreserved_exec(c: char) -> (r: bool)
    ensures
        r == is_unreserved(c),
{
    ('a' <= c && c <= 'z') || ('A' <= c && c <= 'Z') || ('0' <= c && c <= '9') || c == '-' || c
        == '.' || c == '_' || c == '~'
}

fn append_escaped_bytes(out: &mut String, bytes: &[u8])
    ensures
        final(out)@ == old(out)@ + escaped_bytes(bytes@),
{
    let hex = "0123456789ABCDEF";
    proof {
        reveal_strlit("0123456789ABCDEF");
    }
    let mut j: usize = 0;
    while j < bytes.len()
        invariant
            j <= bytes@.len(),
            hex@ == hex_digits(),
            hex@.len() == 16,
            out@ == old(out)@ + escaped_bytes(bytes@.take(j as int)),
        decreases bytes@.len() - j,
    {
        let b = bytes[j];
        let hi = (b / 16) as usize;
        let lo = (b % 16) as usize;
        out.append("%25");
        out.append(hex.substring_char(hi, hi + 1));
        out.append(hex.substring_char(lo, lo + 1));
        proof {
            let t = bytes@.take(j + 1);
            assert(t.drop_last() =~= bytes@.take(j as int));
            assert(t.last() == b);
            assert(hex@.subrange(hi as int, hi + 1) =~= seq![hex_digits()[b as int / 16]]);
            assert(hex@.subrange(lo as int, lo + 1) =~= seq![hex_digits()[b as int % 16]]);
            assert(out@ =~= old(out)@ + escaped_bytes(t));
        }
        j += 1;
    }
    assert(bytes@.take(j as int) =~= bytes@);
}

/// The repository id in the form the service expects in a URL path.
pub fn encode_repo_id(id: &str) -> (r: String)
    ensures
        r@ == encoded_repo_id(id@),
{
    let n = id.unicode_len();
    let mut out = String::new();
    let mut i: usize = 0;
    while i < n
        invariant
            n == id@.len(),
            i <= n,
            out@ == encoded_repo_id(id@.take(i as int)),
        decreases n - i,
    {
        let c = id.get_char(i);
        let one = id.substring_char(i, i + 1);
        assert(one@ =~= seq![c]);
        if is_unreserved_exec(c) {
            out.append(one);
        } else {
            append_escaped_bytes(&mut out, one.as_bytes());
        }
        proof {
            let t = id@.take(i + 1);
            assert(t.drop_last() =~= id@.take(i as int));
            assert(t.last() == c);
        }
        i += 1;
    }
    assert(id@.take(n as int) =~= id@);
    out
}

/// The client's credentials are missing exactly when one of the values is.
pub open spec fn missing_credential(
    github_token: Option<String>,
    greptile_api_token: Option<String>,
) -> Option<Seq<char>> {
    if github_token is None {
        Some(GITHUB_TOKEN_VAR@)
    } else if greptile_api_token is None {
        Some(API_TOKEN_VAR@)
    } else {
        None
    }
}

/// What the existence check means: status 200 is `true`, any other status
/// `false`; only a transport failure is an error.
pub open spec fn exists_outcome(resp: Result<HttpResponse, String>) -> Result<bool, GreptileError> {
    match resp {
        Ok(h) => Ok(h.status == 200),
        Err(e) => Err(GreptileError::Transport(e)),
    }
}

/// What an indexing submission means: status 200 is success, any other
/// status a rejection carrying the body.
pub open spec fn index_outcome(resp: Result<HttpResponse, String>) -> Result<(), GreptileError> {
    match resp {
        Ok(h) => if h.status == 200 {
            Ok(())
        } else {
            Err(GreptileError::RemoteRejected(h.body))
        },
        Err(e) => Err(GreptileError::Transport(e)),
    }
}

/// What a query response means: on status 200 the body is the answer,
/// unchanged; any other status is a rejection carrying the body.
pub open spec fn query_outcome(resp: Result<HttpResponse, String>) -> Result<String, GreptileError> {
    match resp {
        Ok(h) => if h.status == 200 {
            Ok(h.body)
        } else {
            Err(GreptileError::RemoteRejected(h.body))
        },
        Err(e) => Err(GreptileError::Transport(e)),
    }
}

/// Decides the existence check from what the call returned (`Err` holds the
/// transport failure).
pub fn check_repo_exists_outcome(resp: Result<HttpResponse, String>) -> (r: Result<bool, GreptileError>)
    ensures
        r == exists_outcome(resp),
{
    match resp {
        Ok(h) => Ok(h.status == 200),
        Err(e) => Err(GreptileError::Transport(e)),
    }
}

/// Decides an indexing submission from what the call returned.
pub fn index_repo_outcome(resp: Result<HttpResponse, String>) -> (r: Result<(), GreptileError>)
    ensures
        r == index_outcome(resp),
{
    match resp {
        Ok(h) => if h.status == 200 {
            Ok(())
        } else {
            Err(GreptileError::RemoteRejected(h.body))
        },
        Err(e) => Err(GreptileError::Transport(e)),
    }
}

/// Decides a query from what the call returned.
pub fn query_repo_outcome(resp: Result<HttpResponse, String>) -> (r: Result<String, GreptileError>)
    ensures
        r == query_outcome(resp),
{
    match resp {
        Ok(h) => if h.status == 200 {
            Ok(h.body)
        } else {
            Err(GreptileError::RemoteRejected(h.body))
        },
        Err(e) => Err(GreptileError::Transport(e)),
    }
}

/// A successful query answers with its body, character for character.
pub proof fn lemma_query_success_returns_body(body: String)
    ensures
        query_outcome(Ok(HttpResponse { status: 200, body })) matches Ok(answer) && answer@
            == body@,
{
}

/// On a status other than 200 the query and the indexing submission both
/// fail with the body, while the existence check answers `false` without an
/// error.
pub proof fn lemma_rejection_asymmetry(status: u16, body: String)
    requires
        status != 200,
    ensures
        query_outcome(Ok(HttpResponse { status, body })) == Err::<String, GreptileError>(
            GreptileError::RemoteRejected(body),
        ),
        index_outcome(Ok(HttpResponse { status, body })) == Err::<(), GreptileError>(
            GreptileError::RemoteRejected(body),
        ),
        exists_outcome(Ok(HttpResponse { status, body })) == Ok::<bool, GreptileError>(false),
{
}

impl GreptileClient {
    pub fn new(github_token: String, greptile_api_token: String) -> (r: Self)
        ensures
            r.github_token == github_token,
            r.greptile_api_token == greptile_api_token,
    {
        GreptileClient { github_token, greptile_api_token }
    }

    /// A client from the values of the two credential variables, as read from
    /// the environment (`None` where a variable is not set). The access
    /// token is looked at first.
    pub fn from_env(github_token: Option<String>, greptile_api_token: Option<String>) -> (r:
        Result<Self, GreptileError>)
        ensures
            match missing_credential(github_token, greptile_api_token) {
                Some(name) => r matches Err(GreptileError::MissingCredential(n)) && n@ == name,
                None => r matches Ok(c) && Some(c.github_token) == github_token && Some(
                    c.greptile_api_token,
                ) == greptile_api_token,
            },
    {
        match github_token {
            None => Err(GreptileError::MissingCredential(String::from_str(GITHUB_TOKEN_VAR))),
            Some(github_token) => match greptile_api_token {
                None => Err(GreptileError::MissingCredential(String::from_str(API_TOKEN_VAR))),
                Some(greptile_api_token) => Ok(GreptileClient { github_token, greptile_api_token }),
            },
        }
    }

    /// The existence check: a GET of the repository under its encoded id,
    /// with the bearer token only.
    pub fn check_repo_exists_request(&self, repo_id: &str) -> (r: ApiRequest)
        ensures
            r.method is Get,
            r.url@ == REPOSITORIES_URL@ + "/"@ + encoded_repo_id(repo_id@),
            r.bearer_token == self.greptile_api_token,
            r.github_token is None,
    {
        let mut url = String::from_str(REPOSITORIES_URL);
        url.append("/");
        let encoded = encode_repo_id(repo_id);
        url.append(encoded.as_str());
        ApiRequest {
            method: HttpMethod::Get,
            url,
            bearer_token: self.greptile_api_token.clone(),
            github_token: None,
        }
    }

    /// Submitting for indexing: a POST to the repositories collection.
    pub fn index_repo_request(&self) -> (r: ApiRequest)
        ensures
            r.method is Post,
            r.url@ == REPOSITORIES_URL@,
            r.bearer_token == self.greptile_api_token,
            r.github_token == Some(self.github_token),
    {
        ApiRequest {
            method: HttpMethod::Post,
            url: String::from_str(REPOSITORIES_URL),
            bearer_token: self.greptile_api_token.clone(),
            github_token: Some(self.github_token.clone()),
        }
    }

    /// Running a query: a POST to the query endpoint.
    pub fn query_repo_request(&self) -> (r: ApiRequest)
        ensures
            r.method is Post,
            r.url@ == QUERY_URL@,
            r.bearer_token == self.greptile_api_token,
            r.github_token == Some(self.github_token),
    {
        ApiRequest {
            method: HttpMethod::Post,
            url: String::from_str(QUERY_URL),
            bearer_token: self.greptile_api_token.clone(),
            github_token: Some(self.github_token.clone()),
        }
    }
}

} // verus!
