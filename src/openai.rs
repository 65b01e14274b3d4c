//! The client builder, the client, and the endpoint URLs of the API.

use crate::headers::{append_header, empty_header_map, header_entries, header_text_ok};
use crate::urls::{
    join_url, joined_url, parse_url, plain_base, plain_path, plain_segment, plain_url, push_segment,
    segment_pushed, url_text,
};
use vstd::prelude::*;
use vstd::string::*;

verus! {

#[verifier::external_type_specification]
#[verifier::external_body]
pub struct ExClient(reqwest::Client);

#[verifier::external_type_specification]
#[verifier::external_body]
pub struct ExReqwestError(reqwest::Error);

/// The value sent as `User-Agent` with every request.
pub const USER_AGENT: &'static str = "openai-rs/0.1.0";

/// Collects the token and the organization of a client before it is built.
pub struct OpenAIBuilder<'a> {
    pub token: Option<&'a str>,
    pub org: Option<&'a str>,
}

/// A client with its token and organization set as default headers.
///
/// It has no endpoint methods of its own: those come with the feature
/// traits built on top of it.
pub struct OpenAI {
    pub client: reqwest::Client,
}

/// Why a client could not be built.
#[derive(Debug)]
pub enum BuilderError {
    /// No token was given.
    NoToken,
    /// The token cannot stand in the authorization header.
    AuthHeader(reqwest::header::InvalidHeaderValue),
    /// The organization cannot stand in its header.
    OrgHeader(reqwest::header::InvalidHeaderValue),
    /// The HTTP client could not be set up.
    Client(reqwest::Error),
}

/// Why a request gave no decoded response.
#[derive(Debug)]
pub enum RequestError {
    /// The endpoint URL could not be built.
    Url(url::ParseError),
    /// The request failed in transport.
    Client(reqwest::Error),
    /// The body is not JSON.
    Json(serde_json::Error),
    /// The body is JSON, but neither the payload nor an error body.
    Shape,
}

/// The header entries of a client with the given token and organization:
/// the bearer token always, the organization only where one is given.
pub open spec fn expected_headers(token: Seq<char>, org: Option<Seq<char>>) -> Seq<(Seq<char>, Seq<char>)> {
    let auth = seq![("authorization"@, "Bearer "@ + token)];
    match org {
        Some(o) => auth.push(("openai-organization"@, o)),
        None => auth,
    }
}

/// The view of an optional string slice.
pub open spec fn opt_view(s: Option<&str>) -> Option<Seq<char>> {
    match s {
        Some(t) => Some(t@),
        None => None,
    }
}

/// Absent, or text that can be made into a header value.
pub open spec fn absent_or_fits(s: Option<&str>) -> bool {
    match s {
        Some(t) => header_text_ok(t@),
        None => true,
    }
}

/// A header map holding the bearer token and, where given, the organization.
///
/// Fails with `AuthHeader` when the token holds a character that a header
/// value cannot hold, and else with `OrgHeader` when the organization does.
pub fn default_headers(token: &str, org: Option<&str>) -> (r: Result<reqwest::header::HeaderMap, BuilderError>)
    ensures
        r is Ok <==> header_text_ok(token@) && absent_or_fits(org),
        r matches Err(BuilderError::AuthHeader(_)) <==> !header_text_ok(token@),
        r matches Err(BuilderError::OrgHeader(_)) <==> header_text_ok(token@) && !absent_or_fits(org),
        r matches Ok(m) ==> header_entries(m) == expected_headers(token@, opt_view(org)),
{
    proof {
        reveal_strlit("Bearer ");
        reveal_strlit("authorization");
        reveal_strlit("openai-organization");
    }
    let mut bearer = String::from_str("Bearer ");
    bearer.append(token);
    assert(header_text_ok(bearer@) <==> header_text_ok(token@)) by {
        if header_text_ok(token@) {
            assert forall|i: int| 0 <= i < bearer@.len() implies #[trigger] crate::headers::header_char_ok(bearer@[i]) by {
                if i >= 7 {
                    assert(bearer@[i] == token@[i - 7]);
                }
            }
        }
        if header_text_ok(bearer@) {
            assert forall|i: int| 0 <= i < token@.len() implies #[trigger] crate::headers::header_char_ok(token@[i]) by {
                assert(bearer@[i + 7] == token@[i]);
            }
        }
    }
    let mut map = empty_header_map();
    match append_header(&mut map, "authorization", bearer.as_str()) {
        Ok(()) => {},
        Err(e) => {
            return Err(BuilderError::AuthHeader(e));
        },
    }
    match org {
        Some(o) => match append_header(&mut map, "openai-organization", o) {
            Ok(()) => {},
            Err(e) => {
                return Err(BuilderError::OrgHeader(e));
            },
        },
        None => {},
    }
    assert(header_entries(map) =~= expected_headers(token@, opt_view(org)));
    Ok(map)
}

/// Relies on `reqwest::ClientBuilder`: a client that sends the given
/// `User-Agent` and default headers. Whether it can be set up depends on the
/// machine (its TLS backend), so nothing is promised of the outcome.
#[verifier::external_body]
fn new_client(user_agent: &str, headers: reqwest::header::HeaderMap) -> (r: Result<reqwest::Client, reqwest::Error>) {
    reqwest::Client::builder().user_agent(user_agent).default_headers(headers).build()
}

impl<'a> OpenAIBuilder<'a> {
    /// A builder with neither token nor organization.
    pub fn new() -> (r: Self)
        ensures
            r.token is None,
            r.org is None,
    {
        OpenAIBuilder { token: None, org: None }
    }

    /// Sets the token, and hands the builder back for more calls.
    pub fn token(&mut self, token: &'a str) -> (r: &mut Self)
        ensures
            r.token == Some(token),
            r.org == old(self).org,
            *final(self) == *final(r),
    {
        self.token = Some(token);
        self
    }

    /// Sets the organization, and hands the builder back for more calls.
    pub fn organization(&mut self, org: &'a str) -> (r: &mut Self)
        ensures
            r.org == Some(org),
            r.token == old(self).token,
            *final(self) == *final(r),
    {
        self.org = Some(org);
        self
    }

    /// Builds the client, taking the token and the organization out of the
    /// builder.
    ///
    /// Fails with `NoToken` when no token was set, with `AuthHeader` or
    /// `OrgHeader` as `default_headers` does, and with `Client` when the
    /// HTTP client cannot be set up. The organization is taken out once the
    /// token has been accepted as a header value; when the token is missing
    /// or refused, it stays in the builder.
    pub fn build(&mut self) -> (r: Result<OpenAI, BuilderError>)
        ensures
            final(self).token is None,
            r matches Err(BuilderError::NoToken) <==> old(self).token is None,
            r matches Err(BuilderError::AuthHeader(_)) <==> old(self).token is Some && !absent_or_fits(old(self).token),
            r matches Err(BuilderError::OrgHeader(_)) <==> old(self).token is Some && absent_or_fits(old(self).token)
                && !absent_or_fits(old(self).org),
            r is Ok ==> old(self).token is Some && absent_or_fits(old(self).token) && absent_or_fits(old(self).org),
            old(self).token is None ==> final(self).org == old(self).org,
            old(self).token is Some && !absent_or_fits(old(self).token) ==> final(self).org == old(self).org,
            old(self).token is Some && absent_or_fits(old(self).token) ==> final(self).org is None,
    {
        let token = match self.token.take() {
            Some(t) => t,
            None => {
                return Err(BuilderError::NoToken);
            },
        };
        let headers = match default_headers(token, self.org) {
            Ok(h) => h,
            Err(BuilderError::AuthHeader(e)) => {
                return Err(BuilderError::AuthHeader(e));
            },
            Err(e) => {
                self.org = None;
                return Err(e);
            },
        };
        self.org = None;
        match new_client(USER_AGENT, headers) {
            Ok(c) => Ok(OpenAI::new(c)),
            Err(e) => Err(BuilderError::Client(e)),
        }
    }
}

impl OpenAI {
    /// A client around the given HTTP client.
    pub fn new(client: reqwest::Client) -> (r: Self)
        ensures
            r.client == client,
    {
        OpenAI { client }
    }
}

/// The root that every endpoint URL is resolved against.
pub open spec fn api_base() -> Seq<char> {
    "https://api.openai.com/"@
}

/// The relative path of an endpoint: the version, a slash, the endpoint.
pub open spec fn endpoint_path(version: Seq<char>, endpoint: Seq<char>) -> Seq<char> {
    version + "/"@ + endpoint
}

/// The URL of the models endpoint, before a model id is appended.
pub open spec fn models_text() -> Seq<char> {
    api_base() + "v1/models"@
}

pub(crate) proof fn lemma_api_base_plain()
    ensures
        plain_base(api_base()),
{
    reveal_strlit("https://api.openai.com/");
    reveal_strlit("https://");
    let s = api_base();
    assert(s.subrange(0, 8) =~= "https://"@);
    let h = s.subrange(8, s.len() - 1);
    assert forall|i: int| 0 <= i < h.len() implies crate::urls::is_lower(#[trigger] h[i]) || (h[i] == '.'
        && crate::urls::is_lower(h[i + 1])) by {
        assert(h[i] == s[i + 8]);
    }
}

/// The URL of an API endpoint: `https://api.openai.com/{version}/{endpoint}`
/// as `Url::join` resolves it. Where the path is plain (segments that begin
/// with a letter or digit and need no encoding) it is exactly that text.
pub fn openai_uri(version: &str, endpoint: &str) -> (r: Result<url::Url, url::ParseError>)
    requires
        version@.len() > 0,
        version@[0] == 'v',
    ensures
        r is Ok <==> joined_url(api_base(), endpoint_path(version@, endpoint@)) is Some,
        r is Ok ==> joined_url(api_base(), endpoint_path(version@, endpoint@)) == Some(url_text(r->Ok_0)),
        plain_path(endpoint_path(version@, endpoint@)) ==> r is Ok && url_text(r->Ok_0) == api_base()
            + endpoint_path(version@, endpoint@),
{
    let mut component = String::from_str(version);
    component.append("/");
    component.append(endpoint);
    proof {
        lemma_api_base_plain();
    }
    let base = match parse_url("https://api.openai.com/") {
        Ok(u) => u,
        Err(e) => {
            return Err(e);
        },
    };
    join_url(&base, component.as_str())
}

/// Two calls of `openai_uri` with the same version and endpoint agree: both
/// resolve or both fail, and where they resolve their URLs have the same
/// text.
pub proof fn lemma_uri_repeatable(
    version: Seq<char>,
    endpoint: Seq<char>,
    r1: Result<url::Url, url::ParseError>,
    r2: Result<url::Url, url::ParseError>,
)
    requires
        r1 is Ok <==> joined_url(api_base(), endpoint_path(version, endpoint)) is Some,
        r1 is Ok ==> joined_url(api_base(), endpoint_path(version, endpoint)) == Some(url_text(r1->Ok_0)),
        r2 is Ok <==> joined_url(api_base(), endpoint_path(version, endpoint)) is Some,
        r2 is Ok ==> joined_url(api_base(), endpoint_path(version, endpoint)) == Some(url_text(r2->Ok_0)),
    ensures
        r1 is Ok <==> r2 is Ok,
        r1 is Ok ==> url_text(r1->Ok_0) == url_text(r2->Ok_0),
{
}

/// The URL that lists the models.
pub fn models_url() -> (r: Result<url::Url, url::ParseError>)
    ensures
        r is Ok,
        url_text(r->Ok_0) == models_text(),
{
    proof {
        reveal_strlit("v1");
        lemma_models_path_plain();
    }
    openai_uri("v1", "models")
}

pub(crate) proof fn lemma_models_path_plain()
    ensures
        plain_path(endpoint_path("v1"@, "models"@)),
        api_base() + endpoint_path("v1"@, "models"@) == models_text(),
{
    reveal_strlit("v1");
    reveal_strlit("/");
    reveal_strlit("models");
    reveal_strlit("v1/models");
    let p = endpoint_path("v1"@, "models"@);
    assert(p =~= "v1/models"@);
    assert(api_base() + p =~= models_text());
}

/// The URL of one model: the models URL with the id appended as a path
/// segment, percent-encoded where needed. A plain id (one that begins with a
/// letter or digit and holds only letters, digits and `-._~:@`) is appended
/// as it is.
pub fn model_url(model_id: &str) -> (r: Result<url::Url, url::ParseError>)
    ensures
        r is Ok,
        url_text(r->Ok_0) == segment_pushed(models_text(), model_id@),
        plain_segment(model_id@) ==> url_text(r->Ok_0) == models_text() + "/"@ + model_id@,
{
    let mut u = match models_url() {
        Ok(u) => u,
        Err(e) => {
            return Err(e);
        },
    };
    proof {
        lemma_models_text_plain();
    }
    push_segment(&mut u, model_id);
    Ok(u)
}

pub(crate) proof fn lemma_models_text_plain()
    ensures
        plain_url(models_text()),
{
    lemma_api_base_plain();
    lemma_models_path_plain();
    let t = models_text();
    let n = api_base().len() as int;
    reveal_strlit("https://api.openai.com/");
    assert(t.subrange(0, n) =~= api_base());
    assert(t.subrange(n, t.len() as int) =~= endpoint_path("v1"@, "models"@));
}

} // verus!
