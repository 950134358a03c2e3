use base64::Engine;
use otdb::options::{Category, Difficulty, Kind, Options, QueryPair};
use otdb::{DecodingError, EndPointOptions, HttpError};

const ALL_CATEGORIES: [Category; 25] = [
    Category::Any,
    Category::GeneralKnowledge,
    Category::Books,
    Category::Film,
    Category::Music,
    Category::MusicalAndTheatres,
    Category::Television,
    Category::VideoGames,
    Category::BoardGames,
    Category::ScienceAndNature,
    Category::Computers,
    Category::Mathematics,
    Category::Mythology,
    Category::Sports,
    Category::Geography,
    Category::History,
    Category::Politics,
    Category::Art,
    Category::Celebrities,
    Category::Animals,
    Category::Vehicles,
    Category::Comics,
    Category::Gadgets,
    Category::JapaneseAnimeAndManga,
    Category::CartoonAndAnimations,
];

fn encode(s: &str) -> String {
    base64::engine::general_purpose::STANDARD.encode(s)
}

fn pairs(query: &[QueryPair]) -> Vec<(String, String)> {
    query.iter().map(|p| (p.key.clone(), p.value.clone())).collect()
}

fn pair(k: &str, v: &str) -> (String, String) {
    (k.to_string(), v.to_string())
}

#[test]
fn category_ids_render_and_parse_back() {
    for id in 9u8..=32 {
        let c = Category::from_id(id).unwrap();
        assert_eq!(c.id(), id);
        assert_eq!(c.query_value(), Some(id.to_string()));
        let mut q = Vec::new();
        c.prepare(&mut q);
        assert_eq!(pairs(&q), vec![pair("category", &id.to_string())]);
        let key = otdb::model::category_of_key(&id.to_string());
        assert!(matches!(key, Ok(k) if k == c));
    }
}

#[test]
fn category_any_renders_no_parameter() {
    assert_eq!(Category::from_id(0), Some(Category::Any));
    assert_eq!(Category::Any.query_value(), None);
    let mut q = Vec::new();
    Category::Any.prepare(&mut q);
    assert!(q.is_empty());
}

#[test]
fn category_ids_outside_the_set_are_none() {
    for id in [1u8, 8, 33, 255] {
        assert_eq!(Category::from_id(id), None);
    }
}

#[test]
fn category_names_decode_to_their_variant() {
    for c in ALL_CATEGORIES {
        let decoded = Category::decode(&encode(c.name())).unwrap();
        assert_eq!(decoded, c);
        assert_eq!(c.name(), format!("{c:?}"));
    }
}

#[test]
fn category_display_text_is_normalized() {
    let cases = [
        ("Entertainment: Video Games", Category::VideoGames),
        ("Science & Nature", Category::ScienceAndNature),
        ("Entertainment: Japanese Anime & Manga", Category::JapaneseAnimeAndManga),
        ("Entertainment: Musicals & Theatres", Category::Any),
        ("Entertainment: Musical And Theatres", Category::MusicalAndTheatres),
        ("General Knowledge", Category::GeneralKnowledge),
        ("Science: Computers", Category::Computers),
        ("a:b:Art", Category::Art),
        ("Nothing at all", Category::Any),
        ("", Category::Any),
    ];
    for (text, expected) in cases {
        assert_eq!(Category::from_display_text(text), expected, "{text}");
        assert_eq!(Category::decode(&encode(text)).unwrap(), expected, "{text}");
    }
}

#[test]
fn category_decode_rejects_broken_base64() {
    assert!(matches!(Category::decode("%%%"), Err(DecodingError::Base64(_))));
}

#[test]
fn kind_and_difficulty_render_their_query_values() {
    assert_eq!(Kind::Any.query_value(), None);
    assert_eq!(Kind::TrueOrFalse.query_value(), Some("boolean"));
    assert_eq!(Kind::MultipleChoice.query_value(), Some("multiple"));
    assert_eq!(Difficulty::Any.query_value(), None);
    assert_eq!(Difficulty::Easy.query_value(), Some("easy"));
    assert_eq!(Difficulty::Medium.query_value(), Some("medium"));
    assert_eq!(Difficulty::Hard.query_value(), Some("hard"));
}

#[test]
fn kind_and_difficulty_decode_from_base64() {
    assert_eq!(Kind::decode(&encode("boolean")).unwrap(), Kind::TrueOrFalse);
    assert_eq!(Kind::decode(&encode("multiple")).unwrap(), Kind::MultipleChoice);
    assert!(matches!(Kind::decode(&encode("any")), Err(DecodingError::UnknownKind(t)) if t == "any"));
    assert_eq!(Difficulty::decode(&encode("easy")).unwrap(), Difficulty::Easy);
    assert_eq!(Difficulty::decode(&encode("medium")).unwrap(), Difficulty::Medium);
    assert_eq!(Difficulty::decode(&encode("hard")).unwrap(), Difficulty::Hard);
    assert!(matches!(
        Difficulty::decode(&encode("extreme")),
        Err(DecodingError::UnknownDifficulty(t)) if t == "extreme"
    ));
    assert!(matches!(Kind::decode("not base64!"), Err(DecodingError::Base64(_))));
}

#[test]
fn question_number_accepts_up_to_fifty() {
    let mut o = Options::new();
    assert!(o.question_number(0).is_ok());
    assert_eq!(o.get_question_number(), Some(0));
    assert!(o.question_number(50).is_ok());
    assert_eq!(o.get_question_number(), Some(50));
    assert!(matches!(o.question_number(51), Err(HttpError::InvalidOption(_))));
    assert_eq!(o.get_question_number(), Some(50));
    assert!(matches!(o.question_number(255), Err(HttpError::InvalidOption(_))));
}

#[test]
fn prepare_appends_in_order_and_consumes() {
    let mut o = Options::new();
    o.question_number(20).unwrap();
    o.kind(Kind::MultipleChoice).category(Category::Computers).difficulty(Difficulty::Hard);
    let mut q = Vec::new();
    o.prepare(&mut q);
    assert_eq!(
        pairs(&q),
        vec![
            pair("amount", "20"),
            pair("category", "18"),
            pair("difficulty", "hard"),
            pair("type", "multiple"),
        ]
    );
    o.prepare(&mut q);
    assert_eq!(q.len(), 4);
    let mut again = Vec::new();
    o.prepare(&mut again);
    assert!(again.is_empty());
}

#[test]
fn setters_overwrite_earlier_values() {
    let mut o = Options::default();
    o.category(Category::Books).category(Category::Film);
    o.difficulty(Difficulty::Easy).difficulty(Difficulty::Any);
    let mut q = Vec::new();
    o.prepare(&mut q);
    assert_eq!(pairs(&q), vec![pair("category", "11")]);
}

#[test]
fn endpoint_options_behave_as_options() {
    let mut o = EndPointOptions::new();
    assert!(o.question_number(51).is_err());
    o.question_number(7).unwrap();
    o.kind(Kind::TrueOrFalse);
    let mut q = Vec::new();
    o.prepare(&mut q);
    assert_eq!(pairs(&q), vec![pair("amount", "7"), pair("type", "boolean")]);
    let mut again = Vec::new();
    o.prepare(&mut again);
    assert!(again.is_empty());
}
