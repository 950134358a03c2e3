use otdb::options::QueryPair;
use otdb::text::decimal_text;
use otdb::{
    body_kind, classify_response, BodyKind, Category, Client, DecodingError, HttpError, Request,
    ResponseBody,
};

fn pairs(query: &[QueryPair]) -> Vec<(String, String)> {
    query.iter().map(|p| (p.key.clone(), p.value.clone())).collect()
}

fn pair(k: &str, v: &str) -> (String, String) {
    (k.to_string(), v.to_string())
}

#[test]
fn status_200_decodes_the_body() {
    assert_eq!(body_kind(200), BodyKind::Json);
    let r = classify_response(200, ResponseBody::Json(Ok(42u32)));
    assert!(matches!(r, Ok(42)));
    let r = classify_response::<u32>(200, ResponseBody::Json(Err(DecodingError::Json("eof".into()))));
    assert!(matches!(r, Err(HttpError::Decode(DecodingError::Json(m))) if m == "eof"));
}

#[test]
fn status_503_is_an_internal_server_error() {
    assert_eq!(body_kind(503), BodyKind::Text);
    let r = classify_response::<u32>(503, ResponseBody::Text("maintenance".into()));
    assert!(matches!(r, Err(HttpError::InternalServerError(t)) if t.contains("maintenance")));
    let r = classify_response::<u32>(500, ResponseBody::Text(String::new()));
    assert!(matches!(r, Err(HttpError::InternalServerError(_))));
}

#[test]
fn status_429_is_an_unsuccessful_request() {
    assert_eq!(body_kind(429), BodyKind::Text);
    let r = classify_response::<u32>(429, ResponseBody::Text("slow down".into()));
    assert!(matches!(r, Err(HttpError::UnsuccessfulRequest(429, t)) if t == "slow down"));
    let r = classify_response::<u32>(302, ResponseBody::Text("moved".into()));
    assert!(matches!(r, Err(HttpError::UnsuccessfulRequest(302, _))));
    let r = classify_response::<u32>(499, ResponseBody::Text("x".into()));
    assert!(matches!(r, Err(HttpError::UnsuccessfulRequest(499, _))));
}

#[test]
fn request_query_puts_the_token_first() {
    let mut req: Request<()> = Request::new(Some("abc".to_string()), "https://example.org".to_string());
    req.options.category(Category::Art);
    let mut q = Vec::new();
    req.prepare(&mut q);
    assert_eq!(pairs(&q), vec![pair("token", "abc"), pair("amount", "10"), pair("category", "25")]);
    let mut again = Vec::new();
    req.prepare(&mut again);
    assert_eq!(pairs(&again), vec![pair("token", "abc")]);
}

#[test]
fn decimal_numerals_round_trip() {
    for n in 0u8..=255 {
        let t = decimal_text(n);
        assert_eq!(t, n.to_string());
    }
}

#[test]
fn details_requests_carry_no_token() {
    let mut client = Client::new();
    client.set_token("abc");
    let req = client.category_details(Category::Animals);
    assert_eq!(req.endpoint, "https://opentdb.com/api_count.php?category=27");
    assert!(req.token.is_none());
    let req = client.category_details(Category::Any);
    assert_eq!(req.endpoint, "https://opentdb.com/api_count.php?category=0");
    let req = client.global_details();
    assert_eq!(req.endpoint, "https://opentdb.com/api_count_global.php");
    assert!(req.token.is_none());
}
