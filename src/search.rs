use crate::json::{
    bool_text, decimal, has_key, json_quoted, lemma_has_key_concat, string_array_text, JsonObject,
};
use vstd::prelude::*;

verus! {

/// The category of a search: it decides which of the provider's agents runs it.
#[derive(Clone, Copy, Debug, PartialEq, Eq, Structural)]
pub enum Topic {
    General,
    News,
}

/// How much work the provider spends on a query.
#[derive(Clone, Copy, Debug, PartialEq, Eq, Structural)]
pub enum SearchDepth {
    Basic,
    Advanced,
}

impl Topic {
    /// The token that stands for the topic on the wire.
    pub open spec fn token(self) -> Seq<char> {
        match self {
            Topic::General => "general"@,
            Topic::News => "news"@,
        }
    }

    pub fn as_str(&self) -> (r: &'static str)
        ensures
            r@ == self.token(),
    {
        match self {
            Topic::General => "general",
            Topic::News => "news",
        }
    }
}

impl SearchDepth {
    /// The token that stands for the depth on the wire.
    pub open spec fn token(self) -> Seq<char> {
        match self {
            SearchDepth::Basic => "basic"@,
            SearchDepth::Advanced => "advanced"@,
        }
    }

    pub fn as_str(&self) -> (r: &'static str)
        ensures
            r@ == self.token(),
    {
        match self {
            SearchDepth::Basic => "basic",
            SearchDepth::Advanced => "advanced",
        }
    }
}

/// The parameters of a search request. Each field left as `None` is left out
/// of the request, so that the provider applies its own default.
#[derive(Debug)]
pub struct TavilySearchParams {
    /// The search query to execute.
    pub query: String,
    /// The depth of the search; the provider's default is basic.
    pub search_depth: Option<SearchDepth>,
    /// The category of the search; the provider's default is general.
    pub topic: Option<Topic>,
    /// How many days back from today to search; news topic only.
    pub days: Option<u32>,
    /// The largest number of results to return.
    pub max_results: Option<u32>,
    /// Whether to include query-related images.
    pub include_images: Option<bool>,
    /// Whether to include a short answer to the query.
    pub include_answer: Option<bool>,
    /// Whether to include the cleaned HTML content of each result.
    pub include_raw_content: Option<bool>,
    /// Domains to restrict the results to.
    pub include_domains: Option<Vec<String>>,
    /// Domains to leave out of the results.
    pub exclude_domains: Option<Vec<String>>,
}

/// One member under `key` when there is a value, none otherwise.
pub open spec fn opt_member(key: Seq<char>, v: Option<Seq<char>>) -> Seq<(Seq<char>, Seq<char>)> {
    match v {
        Some(t) => seq![(key, t)],
        None => Seq::empty(),
    }
}

pub open spec fn token_value(t: Option<Seq<char>>) -> Option<Seq<char>> {
    match t {
        Some(s) => Some(json_quoted(s)),
        None => None,
    }
}

pub open spec fn depth_token(d: Option<SearchDepth>) -> Option<Seq<char>> {
    match d {
        Some(x) => Some(x.token()),
        None => None,
    }
}

pub open spec fn topic_token(t: Option<Topic>) -> Option<Seq<char>> {
    match t {
        Some(x) => Some(x.token()),
        None => None,
    }
}

pub open spec fn number_value(n: Option<u32>) -> Option<Seq<char>> {
    match n {
        Some(x) => Some(decimal(x as nat)),
        None => None,
    }
}

pub open spec fn flag_value(b: Option<bool>) -> Option<Seq<char>> {
    match b {
        Some(x) => Some(bool_text(x)),
        None => None,
    }
}

pub open spec fn domains_value(v: Option<Vec<String>>) -> Option<Seq<char>> {
    match v {
        Some(x) => Some(string_array_text(x@.map_values(|s: String| s@))),
        None => None,
    }
}

/// The members of the JSON object that carries `p`, in field order.
pub open spec fn params_members(p: TavilySearchParams) -> Seq<(Seq<char>, Seq<char>)> {
    seq![("query"@, json_quoted(p.query@))] + optional_members(p)
}

/// The members of the fields that are set, in field order.
pub open spec fn optional_members(p: TavilySearchParams) -> Seq<(Seq<char>, Seq<char>)> {
    opt_member("search_depth"@, token_value(depth_token(p.search_depth)))
        + opt_member("topic"@, token_value(topic_token(p.topic)))
        + opt_member("days"@, number_value(p.days))
        + opt_member("max_results"@, number_value(p.max_results))
        + opt_member("include_images"@, flag_value(p.include_images))
        + opt_member("include_answer"@, flag_value(p.include_answer))
        + opt_member("include_raw_content"@, flag_value(p.include_raw_content))
        + opt_member("include_domains"@, domains_value(p.include_domains))
        + opt_member("exclude_domains"@, domains_value(p.exclude_domains))
}

pub proof fn lemma_opt_member_key(key: Seq<char>, v: Option<Seq<char>>, k: Seq<char>)
    ensures
        has_key(opt_member(key, v), k) == (v is Some && key == k),
{
    if v is Some {
        assert(opt_member(key, v)[0] == (key, v->0));
    }
}

/// The keys of the optional members: those of the fields that are set.
pub proof fn lemma_optional_keys(p: TavilySearchParams, k: Seq<char>)
    ensures
        has_key(optional_members(p), k) == (
        (k == "search_depth"@ && p.search_depth is Some)
        || (k == "topic"@ && p.topic is Some)
        || (k == "days"@ && p.days is Some)
        || (k == "max_results"@ && p.max_results is Some)
        || (k == "include_images"@ && p.include_images is Some)
        || (k == "include_answer"@ && p.include_answer is Some)
        || (k == "include_raw_content"@ && p.include_raw_content is Some)
        || (k == "include_domains"@ && p.include_domains is Some)
        || (k == "exclude_domains"@ && p.exclude_domains is Some)),
{
    let a1 = opt_member("search_depth"@, token_value(depth_token(p.search_depth)));
    let a2 = opt_member("topic"@, token_value(topic_token(p.topic)));
    let a3 = opt_member("days"@, number_value(p.days));
    let a4 = opt_member("max_results"@, number_value(p.max_results));
    let a5 = opt_member("include_images"@, flag_value(p.include_images));
    let a6 = opt_member("include_answer"@, flag_value(p.include_answer));
    let a7 = opt_member("include_raw_content"@, flag_value(p.include_raw_content));
    let a8 = opt_member("include_domains"@, domains_value(p.include_domains));
    let a9 = opt_member("exclude_domains"@, domains_value(p.exclude_domains));
    lemma_opt_member_key("search_depth"@, token_value(depth_token(p.search_depth)), k);
    lemma_opt_member_key("topic"@, token_value(topic_token(p.topic)), k);
    lemma_opt_member_key("days"@, number_value(p.days), k);
    lemma_opt_member_key("max_results"@, number_value(p.max_results), k);
    lemma_opt_member_key("include_images"@, flag_value(p.include_images), k);
    lemma_opt_member_key("include_answer"@, flag_value(p.include_answer), k);
    lemma_opt_member_key("include_raw_content"@, flag_value(p.include_raw_content), k);
    lemma_opt_member_key("include_domains"@, domains_value(p.include_domains), k);
    lemma_opt_member_key("exclude_domains"@, domains_value(p.exclude_domains), k);
    lemma_has_key_concat(a1, a2, k);
    lemma_has_key_concat(a1 + a2, a3, k);
    lemma_has_key_concat(a1 + a2 + a3, a4, k);
    lemma_has_key_concat(a1 + a2 + a3 + a4, a5, k);
    lemma_has_key_concat(a1 + a2 + a3 + a4 + a5, a6, k);
    lemma_has_key_concat(a1 + a2 + a3 + a4 + a5 + a6, a7, k);
    lemma_has_key_concat(a1 + a2 + a3 + a4 + a5 + a6 + a7, a8, k);
    lemma_has_key_concat(a1 + a2 + a3 + a4 + a5 + a6 + a7 + a8, a9, k);
}

fn push_opt_str(obj: &mut JsonObject, key: &str, v: Option<&str>)
    ensures
        final(obj)@ == old(obj)@ + opt_member(
            key@,
            token_value(
                match v {
                    Some(s) => Some(s@),
                    None => None,
                },
            ),
        ),
{
    match v {
        Some(s) => obj.push_str(key, s),
        None => {},
    }
    assert(final(obj)@ =~= old(obj)@ + opt_member(
        key@,
        token_value(
            match v {
                Some(s) => Some(s@),
                None => None,
            },
        ),
    ));
}

fn push_opt_u32(obj: &mut JsonObject, key: &str, v: Option<u32>)
    ensures
        final(obj)@ == old(obj)@ + opt_member(key@, number_value(v)),
{
    match v {
        Some(n) => obj.push_u32(key, n),
        None => {},
    }
    assert(final(obj)@ =~= old(obj)@ + opt_member(key@, number_value(v)));
}

fn push_opt_bool(obj: &mut JsonObject, key: &str, v: Option<bool>)
    ensures
        final(obj)@ == old(obj)@ + opt_member(key@, flag_value(v)),
{
    match v {
        Some(b) => obj.push_bool(key, b),
        None => {},
    }
    assert(final(obj)@ =~= old(obj)@ + opt_member(key@, flag_value(v)));
}

fn push_opt_domains(obj: &mut JsonObject, key: &str, v: &Option<Vec<String>>)
    ensures
        final(obj)@ == old(obj)@ + opt_member(key@, domains_value(*v)),
{
    match v {
        Some(items) => obj.push_str_array(key, items),
        None => {},
    }
    assert(final(obj)@ =~= old(obj)@ + opt_member(key@, domains_value(*v)));
}

impl TavilySearchParams {
    fn optional_object(&self) -> (r: JsonObject)
        ensures
            r@ == optional_members(*self),
    {
        let mut obj = JsonObject::new();
        let depth: Option<&str> = match &self.search_depth {
            Some(d) => Some(d.as_str()),
            None => None,
        };
        push_opt_str(&mut obj, "search_depth", depth);
        let topic: Option<&str> = match &self.topic {
            Some(t) => Some(t.as_str()),
            None => None,
        };
        push_opt_str(&mut obj, "topic", topic);
        push_opt_u32(&mut obj, "days", self.days);
        push_opt_u32(&mut obj, "max_results", self.max_results);
        push_opt_bool(&mut obj, "include_images", self.include_images);
        push_opt_bool(&mut obj, "include_answer", self.include_answer);
        push_opt_bool(&mut obj, "include_raw_content", self.include_raw_content);
        push_opt_domains(&mut obj, "include_domains", &self.include_domains);
        push_opt_domains(&mut obj, "exclude_domains", &self.exclude_domains);
        assert(obj@ =~= optional_members(*self));
        obj
    }

    /// The JSON object that carries the parameters: the query, then each
    /// field that is set.
    pub fn to_json_object(&self) -> (r: JsonObject)
        ensures
            r@ == params_members(*self),
    {
        let mut obj = JsonObject::new();
        obj.push_str("query", self.query.as_str());
        obj.extend(self.optional_object());
        assert(obj@ =~= params_members(*self));
        obj
    }
}

} // verus!
