use otdb::{Client, HttpError};

#[test]
fn trivia_request_defaults_to_ten_questions() {
    let mut client = Client::new();
    let req = client.trivia();
    assert_eq!(req.endpoint, "https://opentdb.com/api.php?encode=base64");
    assert_eq!(req.options.get_question_number(), Some(10));
    assert!(req.token.is_none());
    client.set_token("tok");
    let req = client.trivia();
    assert_eq!(req.token.as_deref(), Some("tok"));
    let custom = client.new_request::<()>("https://example.org/x");
    assert_eq!(custom.endpoint, "https://example.org/x");
    assert_eq!(custom.token.as_deref(), Some("tok"));
}

#[test]
fn generate_token_does_not_store() {
    let client = Client::new();
    let req = client.generate_token();
    assert_eq!(req.endpoint, "https://opentdb.com/api_token.php?command=request");
    assert_eq!(client.get_token(), None);
}

#[test]
fn reset_without_token_generates_and_stores() {
    let mut client = Client::new();
    let req = client.reset_token();
    assert_eq!(req.endpoint, client.generate_token().endpoint);
    let r = client.finish_reset_token(Ok("fresh".to_string()));
    assert_eq!(r.unwrap(), "fresh");
    assert_eq!(client.get_token().as_deref(), Some("fresh"));
}

#[test]
fn reset_with_token_keeps_it() {
    let mut client = Client::new();
    client.set_token("abc");
    let req = client.reset_token();
    assert_eq!(req.endpoint, "https://opentdb.com/api_token.php?command=reset");
    assert_eq!(req.token.as_deref(), Some("abc"));
    let r = client.finish_reset_token(Ok("other".to_string()));
    assert_eq!(r.unwrap(), "other");
    assert_eq!(client.get_token().as_deref(), Some("abc"));
}

#[test]
fn failed_reset_leaves_the_client_as_it_was() {
    let mut client = Client::new();
    let r = client.finish_reset_token(Err(HttpError::Request("refused".to_string())));
    assert!(matches!(r, Err(HttpError::Request(m)) if m == "refused"));
    assert_eq!(client.get_token(), None);
}
