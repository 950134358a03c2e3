use base64::Engine;
use otdb::model::{base64_string, base64_vec, category_of_key};
use otdb::{
    BaseResponse, Category, DecodingError, Difficulty, GlobalDetail, GlobalDetails, Kind,
    RawTrivia, ResponseCode, Trivia,
};

fn encode(s: &str) -> String {
    base64::engine::general_purpose::STANDARD.encode(s)
}

fn raw_trivia() -> RawTrivia {
    RawTrivia {
        category: encode("Entertainment: Video Games"),
        kind: encode("multiple"),
        difficulty: encode("medium"),
        question: encode("Which company made Pong?"),
        correct_answer: encode("Atari"),
        incorrect_answers: vec![encode("Sega"), encode("Nintendo"), encode("Namco")],
    }
}

fn detail(n: u32) -> GlobalDetail {
    GlobalDetail {
        total_questions: n,
        pending_questions: n + 1,
        verified_questions: n + 2,
        rejected_questions: n + 3,
    }
}

#[test]
fn base64_text_is_decoded() {
    assert_eq!(base64_string("SGVsbG8=").unwrap(), "Hello");
    assert_eq!(base64_string("").unwrap(), "");
    assert_eq!(base64_string(&encode("caf\u{e9} & \u{2603}")).unwrap(), "caf\u{e9} & \u{2603}");
}

#[test]
fn base64_errors_are_reported() {
    assert!(matches!(base64_string("Hello!"), Err(DecodingError::Base64(_))));
    assert!(matches!(base64_string("SGVsbG8"), Err(DecodingError::Base64(_))));
    let not_utf8 = base64::engine::general_purpose::STANDARD.encode([0xffu8, 0xfe]);
    assert!(matches!(base64_string(&not_utf8), Err(DecodingError::Utf8(_))));
}

#[test]
fn base64_lists_decode_in_order() {
    let v = vec![encode("a"), encode("bc"), encode("")];
    assert_eq!(base64_vec(&v).unwrap(), vec!["a".to_string(), "bc".to_string(), String::new()]);
    let bad = vec![encode("a"), "***".to_string()];
    assert!(matches!(base64_vec(&bad), Err(DecodingError::Base64(_))));
}

#[test]
fn response_codes_in_range_decode() {
    assert_eq!(ResponseCode::decode(0).unwrap(), ResponseCode::Success);
    assert_eq!(ResponseCode::decode(1).unwrap(), ResponseCode::NoResults);
    assert_eq!(ResponseCode::decode(2).unwrap(), ResponseCode::InvalidParameter);
    assert_eq!(ResponseCode::decode(3).unwrap(), ResponseCode::TokenNotFound);
    assert_eq!(ResponseCode::decode(4).unwrap(), ResponseCode::TokenEmpty);
}

#[test]
fn response_code_five_is_a_decode_error_naming_it() {
    assert!(matches!(ResponseCode::decode(5), Err(DecodingError::ResponseCode(5))));
    assert!(matches!(BaseResponse::decode(5, ()), Err(DecodingError::ResponseCode(5))));
    let raw = vec![raw_trivia()];
    assert!(matches!(
        BaseResponse::decode_trivia(5, &raw),
        Err(DecodingError::ResponseCode(5))
    ));
}

#[test]
fn trivia_decodes_every_field() {
    let t = Trivia::decode(&raw_trivia()).unwrap();
    assert_eq!(t.category, Category::VideoGames);
    assert_eq!(t.kind, Kind::MultipleChoice);
    assert_eq!(t.difficulty, Difficulty::Medium);
    assert_eq!(t.question, "Which company made Pong?");
    assert_eq!(t.correct_answer, "Atari");
    assert_eq!(t.incorrect_answers, vec!["Sega", "Nintendo", "Namco"]);
}

#[test]
fn trivia_question_that_is_not_base64_fails() {
    let mut raw = raw_trivia();
    raw.question = "Which company made Pong?".to_string();
    assert!(matches!(Trivia::decode(&raw), Err(DecodingError::Base64(_))));
}

#[test]
fn trivia_with_unknown_kind_fails() {
    let mut raw = raw_trivia();
    raw.kind = encode("essay");
    assert!(matches!(Trivia::decode(&raw), Err(DecodingError::UnknownKind(k)) if k == "essay"));
}

#[test]
fn trivia_envelope_decodes() {
    let raw = vec![raw_trivia(), raw_trivia()];
    let b = BaseResponse::decode_trivia(0, &raw).unwrap();
    assert_eq!(b.response_code, ResponseCode::Success);
    assert_eq!(b.results.len(), 2);
    let empty = BaseResponse::decode_trivia(4, &Vec::new()).unwrap();
    assert_eq!(empty.response_code, ResponseCode::TokenEmpty);
    assert!(empty.results.is_empty());
    let mut broken = raw_trivia();
    broken.incorrect_answers.push("?".to_string());
    assert!(matches!(
        BaseResponse::decode_trivia(0, &vec![raw_trivia(), broken]),
        Err(DecodingError::Base64(_))
    ));
}

#[test]
fn statistics_keys_name_categories() {
    assert!(matches!(category_of_key("9"), Ok(Category::GeneralKnowledge)));
    assert!(matches!(category_of_key("32"), Ok(Category::CartoonAndAnimations)));
    for bad in ["0", "8", "33", "09", "", "ten", "1000", "-9", " 9"] {
        assert!(
            matches!(category_of_key(bad), Err(DecodingError::CategoryKey(k)) if k == bad),
            "{bad}"
        );
    }
}

#[test]
fn global_details_map_keys_to_categories() {
    let entries = vec![("18".to_string(), detail(10)), ("27".to_string(), detail(20))];
    let g = GlobalDetails::decode(detail(1), &entries).unwrap();
    assert_eq!(g.overall, detail(1));
    assert_eq!(
        g.categories,
        vec![(Category::Computers, detail(10)), (Category::Animals, detail(20))]
    );
    let bad = vec![("18".to_string(), detail(10)), ("40".to_string(), detail(20))];
    assert!(matches!(
        GlobalDetails::decode(detail(1), &bad),
        Err(DecodingError::CategoryKey(k)) if k == "40"
    ));
    let none = GlobalDetails::decode(detail(3), &Vec::new()).unwrap();
    assert!(none.categories.is_empty());
    assert_eq!(none.get(Category::Books), None);
}

#[test]
fn global_details_look_up_by_category() {
    let entries = vec![("10".to_string(), detail(5)), ("25".to_string(), detail(7))];
    let g = GlobalDetails::decode(detail(1), &entries).unwrap();
    assert_eq!(g.get(Category::Books), Some(detail(5)));
    assert_eq!(g.get(Category::Art), Some(detail(7)));
    assert_eq!(g.get(Category::Film), None);
    assert_eq!(g.get(Category::Any), None);
}
