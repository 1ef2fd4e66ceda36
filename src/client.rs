use crate::error::{ConfigError, HttpError, HttpErrorPayload, TavilyError};
use crate::json::{has_key, json_quoted, lemma_has_key_concat, object_text, JsonObject};
use crate::search::{
    lemma_optional_keys, optional_members, params_members, SearchDepth, TavilySearchParams, Topic,
};
use secrecy::ExposeSecret;
use vstd::prelude::*;

verus! {

/// The provider's production endpoint.
pub const BASE_URL: &'static str = "https://api.tavily.com";

/// The environment variable read for the API key when none is set explicitly.
pub const API_KEY_ENV: &'static str = "TAVILY_API_KEY";

/// The path of the search endpoint.
pub const SEARCH_PATH: &'static str = "/search";

/// reqwest's HTTP client, carried as an opaque value.
#[verifier::external_type_specification]
#[verifier::external_body]
pub struct ExClient(reqwest::Client);

/// An API key kept as a secret: `Debug` never shows it, and its memory is
/// wiped when it is dropped.
#[verifier::external_body]
pub struct ApiKey {
    secret: secrecy::SecretString,
}

/// Relies on reqwest's `Client::new`, which makes a transport with the
/// default settings and does no network I/O. It panics only where no TLS
/// backend or resolver configuration can be loaded on the machine.
pub assume_specification[ reqwest::Client::new ]() -> reqwest::Client;

/// The text that an API key holds.
pub uninterp spec fn secret_text(k: ApiKey) -> Seq<char>;

/// Relies on secrecy's `Secret::new`, which keeps the value as it is given.
#[verifier::external_body]
fn new_secret(s: String) -> (r: ApiKey)
    ensures
        secret_text(r) == s@,
{
    ApiKey { secret: secrecy::Secret::new(s) }
}

/// Relies on secrecy's `ExposeSecret::expose_secret`, which hands back a
/// reference to the value kept.
#[verifier::external_body]
fn expose(k: &ApiKey) -> (r: &String)
    ensures
        r@ == secret_text(*k),
{
    k.secret.expose_secret()
}

/// The member that carries the API key, at the top level of every body.
pub open spec fn auth_members(key: Seq<char>) -> Seq<(Seq<char>, Seq<char>)> {
    seq![("api_key"@, json_quoted(key))]
}

/// The members of a search request body: the API key, then the parameters.
pub open spec fn search_members(key: Seq<char>, p: TavilySearchParams) -> Seq<(Seq<char>, Seq<char>)> {
    auth_members(key) + params_members(p)
}

/// The key that a build resolves: the one set explicitly, else the one
/// found in the environment.
pub open spec fn resolve_key(explicit: Option<Seq<char>>, env: Option<Seq<char>>) -> Option<Seq<char>> {
    match explicit {
        Some(k) => Some(k),
        None => env,
    }
}

/// Whether a build with these keys succeeds: a key is found and it is not
/// empty.
pub open spec fn key_usable(explicit: Option<Seq<char>>, env: Option<Seq<char>>) -> bool {
    match resolve_key(explicit, env) {
        Some(k) => k.len() > 0,
        None => false,
    }
}

/// The base URL that a build resolves.
pub open spec fn resolve_url(explicit: Option<Seq<char>>) -> Seq<char> {
    match explicit {
        Some(u) => u,
        None => BASE_URL@,
    }
}

pub open spec fn string_opt_view(o: Option<String>) -> Option<Seq<char>> {
    match o {
        Some(s) => Some(s@),
        None => None,
    }
}

/// An HTTP status in the success class.
pub open spec fn status_success(status: u16) -> bool {
    200 <= status <= 299
}

proof fn lemma_key_literals()
    ensures
        "api_key"@ != "query"@,
        "query"@ != "topic"@,
        "include_images"@ != "include_answer"@,
        "include_domains"@ != "exclude_domains"@,
        "api_key"@.len() == 7,
        "query"@.len() == 5,
        "search_depth"@.len() == 12,
        "topic"@.len() == 5,
        "days"@.len() == 4,
        "max_results"@.len() == 11,
        "include_images"@.len() == 14,
        "include_answer"@.len() == 14,
        "include_raw_content"@.len() == 19,
        "include_domains"@.len() == 15,
        "exclude_domains"@.len() == 15,
{
    reveal_strlit("api_key");
    reveal_strlit("query");
    reveal_strlit("search_depth");
    reveal_strlit("topic");
    reveal_strlit("days");
    reveal_strlit("max_results");
    reveal_strlit("include_images");
    reveal_strlit("include_answer");
    reveal_strlit("include_raw_content");
    reveal_strlit("include_domains");
    reveal_strlit("exclude_domains");
    assert("query"@[0] != "topic"@[0]);
    assert("include_images"@[8] != "include_answer"@[8]);
    assert("include_domains"@[0] != "exclude_domains"@[0]);
}

/// The keys of a search request body: `api_key`, `query`, and those of the
/// fields that are set.
pub proof fn lemma_search_keys(key: Seq<char>, p: TavilySearchParams, k: Seq<char>)
    ensures
        has_key(search_members(key, p), k) == (k == "api_key"@ || k == "query"@ || has_key(
            optional_members(p),
            k,
        )),
{
    let q = seq![("query"@, json_quoted(p.query@))];
    lemma_has_key_concat(q, optional_members(p), k);
    lemma_has_key_concat(auth_members(key), params_members(p), k);
    if k == "api_key"@ {
        assert(auth_members(key)[0].0 == k);
    }
    if has_key(auth_members(key), k) {
        let i = choose|i: int| 0 <= i < auth_members(key).len() && (#[trigger] auth_members(key)[i]).0 == k;
        assert(i == 0);
    }
    if k == "query"@ {
        assert(q[0].0 == k);
    }
    if has_key(q, k) {
        let i = choose|i: int| 0 <= i < q.len() && (#[trigger] q[i]).0 == k;
        assert(i == 0);
    }
}

/// A field left unset never appears as a key of a search request body: it is
/// left out, not sent as null.
pub proof fn lemma_unset_fields_absent(key: Seq<char>, p: TavilySearchParams)
    ensures
        p.search_depth is None ==> !has_key(search_members(key, p), "search_depth"@),
        p.topic is None ==> !has_key(search_members(key, p), "topic"@),
        p.days is None ==> !has_key(search_members(key, p), "days"@),
        p.max_results is None ==> !has_key(search_members(key, p), "max_results"@),
        p.include_images is None ==> !has_key(search_members(key, p), "include_images"@),
        p.include_answer is None ==> !has_key(search_members(key, p), "include_answer"@),
        p.include_raw_content is None ==> !has_key(search_members(key, p), "include_raw_content"@),
        p.include_domains is None ==> !has_key(search_members(key, p), "include_domains"@),
        p.exclude_domains is None ==> !has_key(search_members(key, p), "exclude_domains"@),
{
    lemma_key_literals();
    lemma_search_keys(key, p, "search_depth"@);
    lemma_optional_keys(p, "search_depth"@);
    lemma_search_keys(key, p, "topic"@);
    lemma_optional_keys(p, "topic"@);
    lemma_search_keys(key, p, "days"@);
    lemma_optional_keys(p, "days"@);
    lemma_search_keys(key, p, "max_results"@);
    lemma_optional_keys(p, "max_results"@);
    lemma_search_keys(key, p, "include_images"@);
    lemma_optional_keys(p, "include_images"@);
    lemma_search_keys(key, p, "include_answer"@);
    lemma_optional_keys(p, "include_answer"@);
    lemma_search_keys(key, p, "include_raw_content"@);
    lemma_optional_keys(p, "include_raw_content"@);
    lemma_search_keys(key, p, "include_domains"@);
    lemma_optional_keys(p, "include_domains"@);
    lemma_search_keys(key, p, "exclude_domains"@);
    lemma_optional_keys(p, "exclude_domains"@);
}

/// The query travels unchanged: the body holds it under the key `query`, as
/// the JSON string of the query text itself, and no other member of the body
/// has that key.
pub proof fn lemma_query_carried(key: Seq<char>, p: TavilySearchParams)
    ensures
        search_members(key, p)[1] == ("query"@, json_quoted(p.query@)),
        forall|i: int|
            0 <= i < search_members(key, p).len() && i != 1 ==> (#[trigger] search_members(
                key,
                p,
            )[i]).0 != "query"@,
{
    let ms = search_members(key, p);
    let opt = optional_members(p);
    lemma_key_literals();
    lemma_optional_keys(p, "query"@);
    assert forall|i: int| 0 <= i < ms.len() && i != 1 implies (#[trigger] ms[i]).0 != "query"@ by {
        if i >= 2 {
            assert(ms[i] == opt[i - 2]);
            if ms[i].0 == "query"@ {
                assert(has_key(opt, "query"@));
            }
        }
    }
}

/// The enumerated fields travel as their lowercase tokens, as JSON strings.
pub proof fn lemma_enum_tokens(key: Seq<char>, p: TavilySearchParams)
    ensures
        p.search_depth == Some(SearchDepth::Basic) ==> search_members(key, p).contains(
            ("search_depth"@, json_quoted("basic"@)),
        ),
        p.search_depth == Some(SearchDepth::Advanced) ==> search_members(key, p).contains(
            ("search_depth"@, json_quoted("advanced"@)),
        ),
        p.topic == Some(Topic::General) ==> search_members(key, p).contains(
            ("topic"@, json_quoted("general"@)),
        ),
        p.topic == Some(Topic::News) ==> search_members(key, p).contains(
            ("topic"@, json_quoted("news"@)),
        ),
{
    let ms = search_members(key, p);
    if p.search_depth is Some {
        assert(ms[2] == ("search_depth"@, json_quoted(p.search_depth->0.token())));
    }
    if p.topic is Some {
        let i: int = if p.search_depth is Some { 3 } else { 2 };
        assert(ms[i] == ("topic"@, json_quoted(p.topic->0.token())));
    }
}

/// A build without a key set and without one in the environment fails; one
/// with a non-empty key set explicitly, or in the environment, succeeds.
pub proof fn lemma_build_key_resolution(key: Seq<char>, env: Option<Seq<char>>)
    ensures
        !key_usable(None, None),
        key.len() > 0 ==> key_usable(Some(key), env),
        key.len() > 0 ==> key_usable(None, Some(key)),
{
}

/// A handle on the provider. Its configuration never changes after it is
/// built, so one handle serves any number of requests at once.
pub struct Tavily {
    client: reqwest::Client,
    api_key: ApiKey,
    base_url: String,
}

/// The configuration of a client under construction.
pub struct TavilyBuilder {
    api_key: Option<ApiKey>,
    base_url: Option<String>,
}

/// A request ready to be sent: a POST of `body` to `url`, as JSON.
pub struct PostRequest {
    pub url: String,
    pub body: String,
}

impl Tavily {
    #[verifier::type_invariant]
    spec fn key_not_empty(self) -> bool {
        secret_text(self.api_key).len() > 0
    }

    /// The API key that the handle sends.
    pub closed spec fn key(self) -> Seq<char> {
        secret_text(self.api_key)
    }

    /// The base URL that every path is appended to.
    pub closed spec fn url(self) -> Seq<char> {
        self.base_url@
    }

    /// A builder with nothing set.
    pub fn builder() -> (r: TavilyBuilder)
        ensures
            r.key_setting() == None::<Seq<char>>,
            r.url_setting() == None::<Seq<char>>,
    {
        TavilyBuilder { api_key: None, base_url: None }
    }

    /// The transport that carries the requests.
    pub fn transport(&self) -> &reqwest::Client {
        &self.client
    }

    /// The request that posts `payload` to `path`, with the API key merged
    /// into the top level of the body ahead of the payload's own members.
    pub fn prepare_post(&self, path: &str, payload: JsonObject) -> (r: PostRequest)
        ensures
            r.url@ == self.url() + path@,
            r.body@ == object_text(auth_members(self.key()) + payload@),
    {
        let url = self.base_url.clone().concat(path);
        let mut obj = JsonObject::new();
        obj.push_str("api_key", expose(&self.api_key).as_str());
        obj.extend(payload);
        let body = obj.to_json();
        PostRequest { url, body }
    }

    /// The request of a search with the parameters `request`.
    pub fn search_request(&self, request: &TavilySearchParams) -> (r: PostRequest)
        ensures
            r.url@ == self.url() + SEARCH_PATH@,
            r.body@ == object_text(search_members(self.key(), *request)),
    {
        self.prepare_post(SEARCH_PATH, request.to_json_object())
    }
}

impl TavilyBuilder {
    /// The API key set explicitly, if any.
    pub closed spec fn key_setting(self) -> Option<Seq<char>> {
        match self.api_key {
            Some(s) => Some(secret_text(s)),
            None => None,
        }
    }

    /// The base URL set explicitly, if any.
    pub closed spec fn url_setting(self) -> Option<Seq<char>> {
        string_opt_view(self.base_url)
    }

    /// Sets the API key.
    pub fn api_key(self, api_key: String) -> (r: TavilyBuilder)
        ensures
            r.key_setting() == Some(api_key@),
            r.url_setting() == self.url_setting(),
    {
        let mut b = self;
        b.api_key = Some(new_secret(api_key));
        b
    }

    /// Sets the base URL.
    pub fn base_url(self, base_url: String) -> (r: TavilyBuilder)
        ensures
            r.key_setting() == self.key_setting(),
            r.url_setting() == Some(base_url@),
    {
        let mut b = self;
        b.base_url = Some(base_url);
        b
    }

    /// Builds the client. `env_api_key` is the value of the environment
    /// variable named by `API_KEY_ENV`, if it is set; it is used only when no
    /// key was set explicitly. The build fails when no key is found, or when
    /// the key found is empty.
    pub fn build(self, env_api_key: Option<String>) -> (r: Result<Tavily, ConfigError>)
        ensures
            r is Ok <==> key_usable(self.key_setting(), string_opt_view(env_api_key)),
            match r {
                Ok(t) => {
                    &&& Some(t.key()) == resolve_key(self.key_setting(), string_opt_view(env_api_key))
                    &&& t.url() == resolve_url(self.url_setting())
                },
                Err(e) => e == ConfigError::MissingApiKey,
            },
    {
        let key = match self.api_key {
            Some(k) => k,
            None => match env_api_key {
                Some(e) => new_secret(e),
                None => {
                    return Err(ConfigError::MissingApiKey);
                },
            },
        };
        if expose(&key).as_str().is_empty() {
            return Err(ConfigError::MissingApiKey);
        }
        let base_url = match self.base_url {
            Some(u) => u,
            None => String::from_str(BASE_URL),
        };
        Ok(Tavily { client: reqwest::Client::new(), api_key: key, base_url })
    }
}

/// Whether a response with this status carries the expected result, rather
/// than an error payload.
pub fn is_success(status: u16) -> (r: bool)
    ensures
        r == status_success(status),
{
    200 <= status && status <= 299
}

/// The error of a response whose status is a failure, from the reading of
/// its body as an error payload: a provider error when the body was read, the
/// failure to read it otherwise.
pub fn failure_outcome(status: u16, payload: Result<HttpErrorPayload, reqwest::Error>) -> (r: TavilyError)
    ensures
        match payload {
            Ok(p) => r == TavilyError::HttpError(HttpError { status, payload: p }),
            Err(e) => r == TavilyError::ClientError(e),
        },
{
    match payload {
        Ok(p) => TavilyError::HttpError(HttpError { status, payload: p }),
        Err(e) => TavilyError::ClientError(e),
    }
}

/// The outcome of a response whose status is a success, from the reading of
/// its body as the expected result: the result, or the failure to read it.
pub fn success_outcome<D>(decoded: Result<D, reqwest::Error>) -> (r: Result<D, TavilyError>)
    ensures
        match decoded {
            Ok(d) => r == Ok::<D, TavilyError>(d),
            Err(e) => r == Err::<D, TavilyError>(TavilyError::ClientError(e)),
        },
{
    match decoded {
        Ok(d) => Ok(d),
        Err(e) => Err(TavilyError::ClientError(e)),
    }
}

} // verus!
