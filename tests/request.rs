use serde_json::Value;
use tavily::{
    failure_outcome, is_success, success_outcome, ConfigError, HttpError, HttpErrorPayload,
    JsonObject, SearchDepth, Tavily, TavilyError, TavilySearchParams, Topic, BASE_URL,
    SEARCH_PATH,
};

fn params(query: &str) -> TavilySearchParams {
    TavilySearchParams {
        query: query.to_string(),
        search_depth: None,
        topic: None,
        days: None,
        max_results: None,
        include_images: None,
        include_answer: None,
        include_raw_content: None,
        include_domains: None,
        exclude_domains: None,
    }
}

fn client(key: &str) -> Tavily {
    Tavily::builder().api_key(key.to_string()).build(None).unwrap()
}

fn body_of(key: &str, p: &TavilySearchParams) -> serde_json::Map<String, Value> {
    let req = client(key).search_request(p);
    match serde_json::from_str::<Value>(&req.body).unwrap() {
        Value::Object(m) => m,
        other => panic!("not an object: {}", other),
    }
}

#[test]
fn query_round_trips_through_the_body() {
    for q in ["rust", "say \"hi\"\\ now", "línea\nnueva \u{1F600}", ""] {
        let body = body_of("k", &params(q));
        assert_eq!(body.get("query"), Some(&Value::String(q.to_string())));
    }
}

#[test]
fn unset_fields_are_absent() {
    let body = body_of("secret-key", &params("rust"));
    let mut keys: Vec<&String> = body.keys().collect();
    keys.sort();
    assert_eq!(keys, vec!["api_key", "query"]);
    assert_eq!(body.get("api_key"), Some(&Value::String("secret-key".to_string())));
}

#[test]
fn minimal_body_text_is_exact() {
    let req = client("abc").search_request(&params("rust"));
    assert_eq!(req.body, r#"{"api_key":"abc","query":"rust"}"#);
    assert_eq!(req.url, "https://api.tavily.com/search");
}

#[test]
fn all_fields_are_written() {
    let mut p = params("news today");
    p.search_depth = Some(SearchDepth::Advanced);
    p.topic = Some(Topic::News);
    p.days = Some(7);
    p.max_results = Some(4294967295);
    p.include_images = Some(true);
    p.include_answer = Some(false);
    p.include_raw_content = Some(true);
    p.include_domains = Some(vec!["a.com".to_string(), "b.org".to_string()]);
    p.exclude_domains = Some(vec![]);
    let req = client("k").search_request(&p);
    assert_eq!(
        req.body,
        [
            r#"{"api_key":"k","query":"news today","search_depth":"advanced","topic":"news","#,
            r#""days":7,"max_results":4294967295,"include_images":true,"include_answer":false,"#,
            r#""include_raw_content":true,"include_domains":["a.com","b.org"],"exclude_domains":[]}"#,
        ]
        .join("")
    );
}

#[test]
fn enum_tokens_are_lowercase() {
    assert_eq!(SearchDepth::Basic.as_str(), "basic");
    assert_eq!(SearchDepth::Advanced.as_str(), "advanced");
    assert_eq!(Topic::General.as_str(), "general");
    assert_eq!(Topic::News.as_str(), "news");
    let mut p = params("q");
    p.search_depth = Some(SearchDepth::Basic);
    p.topic = Some(Topic::General);
    let body = body_of("k", &p);
    assert_eq!(body.get("search_depth"), Some(&Value::String("basic".to_string())));
    assert_eq!(body.get("topic"), Some(&Value::String("general".to_string())));
}

#[test]
fn zero_and_single_digit_numbers() {
    let mut p = params("q");
    p.days = Some(0);
    p.max_results = Some(5);
    let req = client("k").search_request(&p);
    assert_eq!(req.body, r#"{"api_key":"k","query":"q","days":0,"max_results":5}"#);
}

#[test]
fn special_characters_are_escaped() {
    let req = client("k\"ey").search_request(&params("a\"b\\c\n"));
    assert_eq!(req.body, r#"{"api_key":"k\"ey","query":"a\"b\\c\n"}"#);
}

#[test]
fn api_key_is_at_top_level_before_payload() {
    let mut obj = JsonObject::new();
    obj.push_u32("n", 12);
    obj.push_bool("flag", true);
    let req = client("key").prepare_post("/extract", obj);
    assert_eq!(req.url, "https://api.tavily.com/extract");
    assert_eq!(req.body, r#"{"api_key":"key","n":12,"flag":true}"#);
}

#[test]
fn empty_object_and_array() {
    let obj = JsonObject::new();
    assert_eq!(obj.to_json(), "{}");
    let mut obj = JsonObject::new();
    obj.push_str_array("xs", &vec!["x\"y".to_string()]);
    obj.push_str("s", "");
    assert_eq!(obj.to_json(), r#"{"xs":["x\"y"],"s":""}"#);
}

#[test]
fn build_without_any_key_fails() {
    let r = Tavily::builder().build(None);
    assert!(matches!(r, Err(ConfigError::MissingApiKey)));
}

#[test]
fn build_with_explicit_key_succeeds() {
    let t = Tavily::builder().api_key("explicit".to_string()).build(None).unwrap();
    let req = t.search_request(&params("q"));
    assert_eq!(req.body, r#"{"api_key":"explicit","query":"q"}"#);
}

#[test]
fn build_with_environment_key_succeeds() {
    let t = Tavily::builder().build(Some("from-env".to_string())).unwrap();
    let req = t.search_request(&params("q"));
    assert_eq!(req.body, r#"{"api_key":"from-env","query":"q"}"#);
}

#[test]
fn explicit_key_wins_over_environment() {
    let t = Tavily::builder()
        .api_key("explicit".to_string())
        .build(Some("from-env".to_string()))
        .unwrap();
    let req = t.search_request(&params("q"));
    assert_eq!(req.body, r#"{"api_key":"explicit","query":"q"}"#);
}

#[test]
fn empty_key_is_refused() {
    let r = Tavily::builder().api_key(String::new()).build(Some("env".to_string()));
    assert!(matches!(r, Err(ConfigError::MissingApiKey)));
    let r = Tavily::builder().build(Some(String::new()));
    assert!(matches!(r, Err(ConfigError::MissingApiKey)));
}

#[test]
fn missing_key_message_names_the_variable() {
    assert_eq!(
        ConfigError::MissingApiKey.message(),
        "API key is required. Set it explicitly or use the TAVILY_API_KEY environment variable"
    );
}

#[test]
fn base_url_default_and_override() {
    assert_eq!(BASE_URL, "https://api.tavily.com");
    assert_eq!(SEARCH_PATH, "/search");
    let t = Tavily::builder()
        .base_url("http://localhost:8080".to_string())
        .api_key("k".to_string())
        .build(None)
        .unwrap();
    assert_eq!(t.search_request(&params("q")).url, "http://localhost:8080/search");
}

#[test]
fn success_status_class() {
    assert!(!is_success(199));
    assert!(is_success(200));
    assert!(is_success(299));
    assert!(!is_success(300));
    assert!(!is_success(401));
    assert!(!is_success(500));
}

#[test]
fn unauthorized_response_gives_provider_error() {
    let body: Value =
        serde_json::from_str(r#"{"code":"unauthorized","message":"bad key"}"#).unwrap();
    let payload = HttpErrorPayload {
        code: body["code"].as_str().unwrap().to_string(),
        message: body["message"].as_str().unwrap().to_string(),
    };
    match failure_outcome(401, Ok(payload)) {
        TavilyError::HttpError(e) => {
            assert_eq!(e.status, 401);
            assert_eq!(e.payload.code, "unauthorized");
            assert_eq!(e.payload.message, "bad key");
        }
        other => panic!("unexpected: {:?}", other),
    }
}

#[test]
fn success_outcome_passes_the_result_on() {
    let r: Result<u32, TavilyError> = success_outcome(Ok(5));
    assert!(matches!(r, Ok(5)));
}

#[test]
fn http_error_text() {
    let e = HttpError {
        status: 401,
        payload: HttpErrorPayload {
            code: "unauthorized".to_string(),
            message: "bad key".to_string(),
        },
    };
    assert_eq!(e.to_string(), "401 - unauthorized - bad key");
}

#[test]
fn two_requests_from_one_client_are_independent() {
    let t = client("k");
    let a = t.search_request(&params("first"));
    let b = t.search_request(&params("second"));
    let a2 = t.search_request(&params("first"));
    assert_eq!(a.body, a2.body);
    assert_eq!(b.body, r#"{"api_key":"k","query":"second"}"#);
}
