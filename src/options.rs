//! The options of a trivia request, the enumerations they take, and how each
//! is written into a query and read back from the wire.

use vstd::prelude::*;
use crate::error::{DecodingError, HttpError};
use crate::model::{base64_string, base64_text, key_category, lemma_key_of_category, text_failure};
use crate::text::{decimal, decimal_text, digits_value, is_decimal, lemma_decimal, same_text};

verus! {

/// A query parameter: a name and its value, as they go into the URL.
pub struct QueryPair {
    pub key: String,
    pub value: String,
}

impl View for QueryPair {
    type V = (Seq<char>, Seq<char>);

    open spec fn view(&self) -> (Seq<char>, Seq<char>) {
        (self.key@, self.value@)
    }
}

/// The views of a list of query parameters.
pub open spec fn pairs_view(s: Seq<QueryPair>) -> Seq<(Seq<char>, Seq<char>)> {
    s.map_values(|p: QueryPair| p@)
}

/// The parameters that an optional value adds: one pair where it is present.
pub open spec fn optional_pair(key: Seq<char>, value: Option<Seq<char>>) -> Seq<(Seq<char>, Seq<char>)> {
    match value {
        Some(v) => seq![(key, v)],
        None => Seq::empty(),
    }
}

/// Appends the parameter `key=value` to `query`.
pub fn push_pair(query: &mut Vec<QueryPair>, key: &str, value: String)
    ensures
        pairs_view(final(query)@) == pairs_view(old(query)@).push((key@, value@)),
{
    query.push(QueryPair { key: String::from_str(key), value });
    assert(pairs_view(final(query)@) =~= pairs_view(old(query)@).push((key@, value@)));
}

/// Appends the parameter `key=value` where `value` is present.
fn push_optional(query: &mut Vec<QueryPair>, key: &str, value: Option<&str>)
    ensures
        pairs_view(final(query)@) == pairs_view(old(query)@) + optional_pair(
            key@,
            match value {
                Some(v) => Some(v@),
                None => None,
            },
        ),
{
    match value {
        Some(v) => {
            push_pair(query, key, String::from_str(v));
            assert(pairs_view(final(query)@) =~= pairs_view(old(query)@) + seq![(key@, v@)]);
        },
        None => {
            assert(pairs_view(final(query)@) =~= pairs_view(old(query)@) + Seq::empty());
        },
    }
}

/// `e` is the error that reading a kind from the base64 field `s` reports.
pub open spec fn kind_failure(s: Seq<char>, e: DecodingError) -> bool {
    match base64_text(s) {
        None => text_failure(s, e),
        Some(t) => Kind::spec_named(t) is None && (e matches DecodingError::UnknownKind(u) && u@ == t),
    }
}

/// `e` is the error that reading a difficulty from the base64 field `s` reports.
pub open spec fn difficulty_failure(s: Seq<char>, e: DecodingError) -> bool {
    match base64_text(s) {
        None => text_failure(s, e),
        Some(t) => Difficulty::spec_named(t) is None && (e matches DecodingError::UnknownDifficulty(u)
            && u@ == t),
    }
}

/// The kind of a question.
#[derive(Debug, Clone, Copy, Hash, PartialEq, Eq, Structural)]
pub enum Kind {
    /// The question can be either true/false or multiple choice.
    Any,
    /// The question has true/false answers.
    TrueOrFalse,
    /// The question has several options to choose the answer from.
    MultipleChoice,
}

impl Kind {
    /// The value of the `type` parameter that selects this kind; none for `Any`.
    pub open spec fn spec_query_value(self) -> Option<Seq<char>> {
        match self {
            Kind::Any => None,
            Kind::TrueOrFalse => Some("boolean"@),
            Kind::MultipleChoice => Some("multiple"@),
        }
    }

    /// The kind that the decoded wire text `t` names, if any.
    pub open spec fn spec_named(t: Seq<char>) -> Option<Kind> {
        if t == "boolean"@ {
            Some(Kind::TrueOrFalse)
        } else if t == "multiple"@ {
            Some(Kind::MultipleChoice)
        } else {
            None
        }
    }

    /// The value of the `type` parameter that selects this kind; none for `Any`.
    pub fn query_value(self) -> (r: Option<&'static str>)
        ensures
            r is Some <==> self.spec_query_value() is Some,
            r matches Some(v) ==> self.spec_query_value() == Some(v@),
    {
        match self {
            Kind::Any => None,
            Kind::TrueOrFalse => Some("boolean"),
            Kind::MultipleChoice => Some("multiple"),
        }
    }

    /// Appends the `type` parameter that selects this kind, if any.
    pub fn prepare(self, query: &mut Vec<QueryPair>)
        ensures
            pairs_view(final(query)@) == pairs_view(old(query)@) + optional_pair(
                "type"@,
                self.spec_query_value(),
            ),
    {
        push_optional(query, "type", self.query_value());
    }

    /// Reads a kind from its base64 wire form; a kind that is not known is an error.
    pub fn decode(s: &str) -> (r: Result<Kind, DecodingError>)
        ensures
            r is Ok <==> (base64_text(s@) matches Some(t) && Kind::spec_named(t) is Some),
            r matches Ok(k) ==> Some(k) == Kind::spec_named(base64_text(s@)->0),
            r matches Err(e) ==> kind_failure(s@, e),
    {
        let t = base64_string(s)?;
        if same_text(t.as_str(), "boolean") {
            Ok(Kind::TrueOrFalse)
        } else if same_text(t.as_str(), "multiple") {
            Ok(Kind::MultipleChoice)
        } else {
            Err(DecodingError::UnknownKind(t))
        }
    }
}

/// The difficulty of a question.
#[derive(Debug, Clone, Copy, Hash, PartialEq, Eq, Structural)]
pub enum Difficulty {
    Any,
    Easy,
    Medium,
    Hard,
}

impl Difficulty {
    /// The value of the `difficulty` parameter that selects this difficulty; none for `Any`.
    pub open spec fn spec_query_value(self) -> Option<Seq<char>> {
        match self {
            Difficulty::Any => None,
            Difficulty::Easy => Some("easy"@),
            Difficulty::Medium => Some("medium"@),
            Difficulty::Hard => Some("hard"@),
        }
    }

    /// The difficulty that the decoded wire text `t` names, if any.
    pub open spec fn spec_named(t: Seq<char>) -> Option<Difficulty> {
        if t == "easy"@ {
            Some(Difficulty::Easy)
        } else if t == "medium"@ {
            Some(Difficulty::Medium)
        } else if t == "hard"@ {
            Some(Difficulty::Hard)
        } else {
            None
        }
    }

    /// The value of the `difficulty` parameter that selects this difficulty; none for `Any`.
    pub fn query_value(self) -> (r: Option<&'static str>)
        ensures
            r is Some <==> self.spec_query_value() is Some,
            r matches Some(v) ==> self.spec_query_value() == Some(v@),
    {
        match self {
            Difficulty::Any => None,
            Difficulty::Easy => Some("easy"),
            Difficulty::Medium => Some("medium"),
            Difficulty::Hard => Some("hard"),
        }
    }

    /// Appends the `difficulty` parameter that selects this difficulty, if any.
    pub fn prepare(self, query: &mut Vec<QueryPair>)
        ensures
            pairs_view(final(query)@) == pairs_view(old(query)@) + optional_pair(
                "difficulty"@,
                self.spec_query_value(),
            ),
    {
        push_optional(query, "difficulty", self.query_value());
    }

    /// Reads a difficulty from its base64 wire form; one that is not known is an error.
    pub fn decode(s: &str) -> (r: Result<Difficulty, DecodingError>)
        ensures
            r is Ok <==> (base64_text(s@) matches Some(t) && Difficulty::spec_named(t) is Some),
            r matches Ok(d) ==> Some(d) == Difficulty::spec_named(base64_text(s@)->0),
            r matches Err(e) ==> difficulty_failure(s@, e),
    {
        let t = base64_string(s)?;
        if same_text(t.as_str(), "easy") {
            Ok(Difficulty::Easy)
        } else if same_text(t.as_str(), "medium") {
            Ok(Difficulty::Medium)
        } else if same_text(t.as_str(), "hard") {
            Ok(Difficulty::Hard)
        } else {
            Err(DecodingError::UnknownDifficulty(t))
        }
    }
}

/// The category of a question. `Any` leaves the category open; the others
/// carry the ids 9 to 32 of the API.
#[derive(Debug, Clone, Copy, Hash, PartialEq, Eq, Structural)]
pub enum Category {
    Any,
    GeneralKnowledge,
    Books,
    Film,
    Music,
    MusicalAndTheatres,
    Television,
    VideoGames,
    BoardGames,
    ScienceAndNature,
    Computers,
    Mathematics,
    Mythology,
    Sports,
    Geography,
    History,
    Politics,
    Art,
    Celebrities,
    Animals,
    Vehicles,
    Comics,
    Gadgets,
    JapaneseAnimeAndManga,
    CartoonAndAnimations,
}

impl Category {
    /// The numeric id of the category; 0 for `Any`.
    pub open spec fn spec_id(self) -> u8 {
        match self {
            Category::Any => 0,
            Category::GeneralKnowledge => 9,
            Category::Books => 10,
            Category::Film => 11,
            Category::Music => 12,
            Category::MusicalAndTheatres => 13,
            Category::Television => 14,
            Category::VideoGames => 15,
            Category::BoardGames => 16,
            Category::ScienceAndNature => 17,
            Category::Computers => 18,
            Category::Mathematics => 19,
            Category::Mythology => 20,
            Category::Sports => 21,
            Category::Geography => 22,
            Category::History => 23,
            Category::Politics => 24,
            Category::Art => 25,
            Category::Celebrities => 26,
            Category::Animals => 27,
            Category::Vehicles => 28,
            Category::Comics => 29,
            Category::Gadgets => 30,
            Category::JapaneseAnimeAndManga => 31,
            Category::CartoonAndAnimations => 32,
        }
    }

    /// The category whose id is `id`, if any.
    pub open spec fn spec_from_id(id: int) -> Option<Category> {
        if id == 0 {
            Some(Category::Any)
        } else if id == 9 {
            Some(Category::GeneralKnowledge)
        } else if id == 10 {
            Some(Category::Books)
        } else if id == 11 {
            Some(Category::Film)
        } else if id == 12 {
            Some(Category::Music)
        } else if id == 13 {
            Some(Category::MusicalAndTheatres)
        } else if id == 14 {
            Some(Category::Television)
        } else if id == 15 {
            Some(Category::VideoGames)
        } else if id == 16 {
            Some(Category::BoardGames)
        } else if id == 17 {
            Some(Category::ScienceAndNature)
        } else if id == 18 {
            Some(Category::Computers)
        } else if id == 19 {
            Some(Category::Mathematics)
        } else if id == 20 {
            Some(Category::Mythology)
        } else if id == 21 {
            Some(Category::Sports)
        } else if id == 22 {
            Some(Category::Geography)
        } else if id == 23 {
            Some(Category::History)
        } else if id == 24 {
            Some(Category::Politics)
        } else if id == 25 {
            Some(Category::Art)
        } else if id == 26 {
            Some(Category::Celebrities)
        } else if id == 27 {
            Some(Category::Animals)
        } else if id == 28 {
            Some(Category::Vehicles)
        } else if id == 29 {
            Some(Category::Comics)
        } else if id == 30 {
            Some(Category::Gadgets)
        } else if id == 31 {
            Some(Category::JapaneseAnimeAndManga)
        } else if id == 32 {
            Some(Category::CartoonAndAnimations)
        } else {
            None
        }
    }

    /// The name of the variant, as the category decoder spells it.
    pub open spec fn spec_name(self) -> Seq<char> {
        match self {
            Category::Any => seq!['A', 'n', 'y'],
            Category::GeneralKnowledge => seq!['G', 'e', 'n', 'e', 'r', 'a', 'l', 'K', 'n', 'o', 'w', 'l', 'e', 'd', 'g', 'e'],
            Category::Books => seq!['B', 'o', 'o', 'k', 's'],
            Category::Film => seq!['F', 'i', 'l', 'm'],
            Category::Music => seq!['M', 'u', 's', 'i', 'c'],
            Category::MusicalAndTheatres => seq!['M', 'u', 's', 'i', 'c', 'a', 'l', 'A', 'n', 'd', 'T', 'h', 'e', 'a', 't', 'r', 'e', 's'],
            Category::Television => seq!['T', 'e', 'l', 'e', 'v', 'i', 's', 'i', 'o', 'n'],
            Category::VideoGames => seq!['V', 'i', 'd', 'e', 'o', 'G', 'a', 'm', 'e', 's'],
            Category::BoardGames => seq!['B', 'o', 'a', 'r', 'd', 'G', 'a', 'm', 'e', 's'],
            Category::ScienceAndNature => seq!['S', 'c', 'i', 'e', 'n', 'c', 'e', 'A', 'n', 'd', 'N', 'a', 't', 'u', 'r', 'e'],
            Category::Computers => seq!['C', 'o', 'm', 'p', 'u', 't', 'e', 'r', 's'],
            Category::Mathematics => seq!['M', 'a', 't', 'h', 'e', 'm', 'a', 't', 'i', 'c', 's'],
            Category::Mythology => seq!['M', 'y', 't', 'h', 'o', 'l', 'o', 'g', 'y'],
            Category::Sports => seq!['S', 'p', 'o', 'r', 't', 's'],
            Category::Geography => seq!['G', 'e', 'o', 'g', 'r', 'a', 'p', 'h', 'y'],
            Category::History => seq!['H', 'i', 's', 't', 'o', 'r', 'y'],
            Category::Politics => seq!['P', 'o', 'l', 'i', 't', 'i', 'c', 's'],
            Category::Art => seq!['A', 'r', 't'],
            Category::Celebrities => seq!['C', 'e', 'l', 'e', 'b', 'r', 'i', 't', 'i', 'e', 's'],
            Category::Animals => seq!['A', 'n', 'i', 'm', 'a', 'l', 's'],
            Category::Vehicles => seq!['V', 'e', 'h', 'i', 'c', 'l', 'e', 's'],
            Category::Comics => seq!['C', 'o', 'm', 'i', 'c', 's'],
            Category::Gadgets => seq!['G', 'a', 'd', 'g', 'e', 't', 's'],
            Category::JapaneseAnimeAndManga => seq!['J', 'a', 'p', 'a', 'n', 'e', 's', 'e', 'A', 'n', 'i', 'm', 'e', 'A', 'n', 'd', 'M', 'a', 'n', 'g', 'a'],
            Category::CartoonAndAnimations => seq!['C', 'a', 'r', 't', 'o', 'o', 'n', 'A', 'n', 'd', 'A', 'n', 'i', 'm', 'a', 't', 'i', 'o', 'n', 's'],
        }
    }

    /// The numeric id of the category; 0 for `Any`.
    pub fn id(self) -> (r: u8)
        ensures
            r == self.spec_id(),
    {
        match self {
            Category::Any => 0,
            Category::GeneralKnowledge => 9,
            Category::Books => 10,
            Category::Film => 11,
            Category::Music => 12,
            Category::MusicalAndTheatres => 13,
            Category::Television => 14,
            Category::VideoGames => 15,
            Category::BoardGames => 16,
            Category::ScienceAndNature => 17,
            Category::Computers => 18,
            Category::Mathematics => 19,
            Category::Mythology => 20,
            Category::Sports => 21,
            Category::Geography => 22,
            Category::History => 23,
            Category::Politics => 24,
            Category::Art => 25,
            Category::Celebrities => 26,
            Category::Animals => 27,
            Category::Vehicles => 28,
            Category::Comics => 29,
            Category::Gadgets => 30,
            Category::JapaneseAnimeAndManga => 31,
            Category::CartoonAndAnimations => 32,
        }
    }

    /// The category whose id is `id`, if any.
    pub fn from_id(id: u8) -> (r: Option<Category>)
        ensures
            r == Category::spec_from_id(id as int),
    {
        match id {
            0 => Some(Category::Any),
            9 => Some(Category::GeneralKnowledge),
            10 => Some(Category::Books),
            11 => Some(Category::Film),
            12 => Some(Category::Music),
            13 => Some(Category::MusicalAndTheatres),
            14 => Some(Category::Television),
            15 => Some(Category::VideoGames),
            16 => Some(Category::BoardGames),
            17 => Some(Category::ScienceAndNature),
            18 => Some(Category::Computers),
            19 => Some(Category::Mathematics),
            20 => Some(Category::Mythology),
            21 => Some(Category::Sports),
            22 => Some(Category::Geography),
            23 => Some(Category::History),
            24 => Some(Category::Politics),
            25 => Some(Category::Art),
            26 => Some(Category::Celebrities),
            27 => Some(Category::Animals),
            28 => Some(Category::Vehicles),
            29 => Some(Category::Comics),
            30 => Some(Category::Gadgets),
            31 => Some(Category::JapaneseAnimeAndManga),
            32 => Some(Category::CartoonAndAnimations),
            _ => None,
        }
    }

    /// The name of the variant, as the category decoder spells it.
    pub fn name(self) -> (r: &'static str)
        ensures
            r@ == self.spec_name(),
    {
        match self {
            Category::Any => {
                proof { reveal_strlit("Any"); }
                assert("Any"@ =~= seq!['A', 'n', 'y']);
                "Any"
            },
            Category::GeneralKnowledge => {
                proof { reveal_strlit("GeneralKnowledge"); }
                assert("GeneralKnowledge"@ =~= seq!['G', 'e', 'n', 'e', 'r', 'a', 'l', 'K', 'n', 'o', 'w', 'l', 'e', 'd', 'g', 'e']);
                "GeneralKnowledge"
            },
            Category::Books => {
                proof { reveal_strlit("Books"); }
                assert("Books"@ =~= seq!['B', 'o', 'o', 'k', 's']);
                "Books"
            },
            Category::Film => {
                proof { reveal_strlit("Film"); }
                assert("Film"@ =~= seq!['F', 'i', 'l', 'm']);
                "Film"
            },
            Category::Music => {
                proof { reveal_strlit("Music"); }
                assert("Music"@ =~= seq!['M', 'u', 's', 'i', 'c']);
                "Music"
            },
            Category::MusicalAndTheatres => {
                proof { reveal_strlit("MusicalAndTheatres"); }
                assert("MusicalAndTheatres"@ =~= seq!['M', 'u', 's', 'i', 'c', 'a', 'l', 'A', 'n', 'd', 'T', 'h', 'e', 'a', 't', 'r', 'e', 's']);
                "MusicalAndTheatres"
            },
            Category::Television => {
                proof { reveal_strlit("Television"); }
                assert("Television"@ =~= seq!['T', 'e', 'l', 'e', 'v', 'i', 's', 'i', 'o', 'n']);
                "Television"
            },
            Category::VideoGames => {
                proof { reveal_strlit("VideoGames"); }
                assert("VideoGames"@ =~= seq!['V', 'i', 'd', 'e', 'o', 'G', 'a', 'm', 'e', 's']);
                "VideoGames"
            },
            Category::BoardGames => {
                proof { reveal_strlit("BoardGames"); }
                assert("BoardGames"@ =~= seq!['B', 'o', 'a', 'r', 'd', 'G', 'a', 'm', 'e', 's']);
                "BoardGames"
            },
            Category::ScienceAndNature => {
                proof { reveal_strlit("ScienceAndNature"); }
                assert("ScienceAndNature"@ =~= seq!['S', 'c', 'i', 'e', 'n', 'c', 'e', 'A', 'n', 'd', 'N', 'a', 't', 'u', 'r', 'e']);
                "ScienceAndNature"
            },
            Category::Computers => {
                proof { reveal_strlit("Computers"); }
                assert("Computers"@ =~= seq!['C', 'o', 'm', 'p', 'u', 't', 'e', 'r', 's']);
                "Computers"
            },
            Category::Mathematics => {
                proof { reveal_strlit("Mathematics"); }
                assert("Mathematics"@ =~= seq!['M', 'a', 't', 'h', 'e', 'm', 'a', 't', 'i', 'c', 's']);
                "Mathematics"
            },
            Category::Mythology => {
                proof { reveal_strlit("Mythology"); }
                assert("Mythology"@ =~= seq!['M', 'y', 't', 'h', 'o', 'l', 'o', 'g', 'y']);
                "Mythology"
            },
            Category::Sports => {
                proof { reveal_strlit("Sports"); }
                assert("Sports"@ =~= seq!['S', 'p', 'o', 'r', 't', 's']);
                "Sports"
            },
            Category::Geography => {
                proof { reveal_strlit("Geography"); }
                assert("Geography"@ =~= seq!['G', 'e', 'o', 'g', 'r', 'a', 'p', 'h', 'y']);
                "Geography"
            },
            Category::History => {
                proof { reveal_strlit("History"); }
                assert("History"@ =~= seq!['H', 'i', 's', 't', 'o', 'r', 'y']);
                "History"
            },
            Category::Politics => {
                proof { reveal_strlit("Politics"); }
                assert("Politics"@ =~= seq!['P', 'o', 'l', 'i', 't', 'i', 'c', 's']);
                "Politics"
            },
            Category::Art => {
                proof { reveal_strlit("Art"); }
                assert("Art"@ =~= seq!['A', 'r', 't']);
                "Art"
            },
            Category::Celebrities => {
                proof { reveal_strlit("Celebrities"); }
                assert("Celebrities"@ =~= seq!['C', 'e', 'l', 'e', 'b', 'r', 'i', 't', 'i', 'e', 's']);
                "Celebrities"
            },
            Category::Animals => {
                proof { reveal_strlit("Animals"); }
                assert("Animals"@ =~= seq!['A', 'n', 'i', 'm', 'a', 'l', 's']);
                "Animals"
            },
            Category::Vehicles => {
                proof { reveal_strlit("Vehicles"); }
                assert("Vehicles"@ =~= seq!['V', 'e', 'h', 'i', 'c', 'l', 'e', 's']);
                "Vehicles"
            },
            Category::Comics => {
                proof { reveal_strlit("Comics"); }
                assert("Comics"@ =~= seq!['C', 'o', 'm', 'i', 'c', 's']);
                "Comics"
            },
            Category::Gadgets => {
                proof { reveal_strlit("Gadgets"); }
                assert("Gadgets"@ =~= seq!['G', 'a', 'd', 'g', 'e', 't', 's']);
                "Gadgets"
            },
            Category::JapaneseAnimeAndManga => {
                proof { reveal_strlit("JapaneseAnimeAndManga"); }
                assert("JapaneseAnimeAndManga"@ =~= seq!['J', 'a', 'p', 'a', 'n', 'e', 's', 'e', 'A', 'n', 'i', 'm', 'e', 'A', 'n', 'd', 'M', 'a', 'n', 'g', 'a']);
                "JapaneseAnimeAndManga"
            },
            Category::CartoonAndAnimations => {
                proof { reveal_strlit("CartoonAndAnimations"); }
                assert("CartoonAndAnimations"@ =~= seq!['C', 'a', 'r', 't', 'o', 'o', 'n', 'A', 'n', 'd', 'A', 'n', 'i', 'm', 'a', 't', 'i', 'o', 'n', 's']);
                "CartoonAndAnimations"
            },
        }
    }
}

/// The category whose name has the given length and first two characters;
/// no two names share all three.
pub open spec fn category_by_name_key(len: nat, c0: char, c1: char) -> Category {
    if len == 3 && c0 == 'A' && c1 == 'n' {
        Category::Any
    } else if len == 16 && c0 == 'G' && c1 == 'e' {
        Category::GeneralKnowledge
    } else if len == 5 && c0 == 'B' && c1 == 'o' {
        Category::Books
    } else if len == 4 && c0 == 'F' && c1 == 'i' {
        Category::Film
    } else if len == 5 && c0 == 'M' && c1 == 'u' {
        Category::Music
    } else if len == 18 && c0 == 'M' && c1 == 'u' {
        Category::MusicalAndTheatres
    } else if len == 10 && c0 == 'T' && c1 == 'e' {
        Category::Television
    } else if len == 10 && c0 == 'V' && c1 == 'i' {
        Category::VideoGames
    } else if len == 10 && c0 == 'B' && c1 == 'o' {
        Category::BoardGames
    } else if len == 16 && c0 == 'S' && c1 == 'c' {
        Category::ScienceAndNature
    } else if len == 9 && c0 == 'C' && c1 == 'o' {
        Category::Computers
    } else if len == 11 && c0 == 'M' && c1 == 'a' {
        Category::Mathematics
    } else if len == 9 && c0 == 'M' && c1 == 'y' {
        Category::Mythology
    } else if len == 6 && c0 == 'S' && c1 == 'p' {
        Category::Sports
    } else if len == 9 && c0 == 'G' && c1 == 'e' {
        Category::Geography
    } else if len == 7 && c0 == 'H' && c1 == 'i' {
        Category::History
    } else if len == 8 && c0 == 'P' && c1 == 'o' {
        Category::Politics
    } else if len == 3 && c0 == 'A' && c1 == 'r' {
        Category::Art
    } else if len == 11 && c0 == 'C' && c1 == 'e' {
        Category::Celebrities
    } else if len == 7 && c0 == 'A' && c1 == 'n' {
        Category::Animals
    } else if len == 8 && c0 == 'V' && c1 == 'e' {
        Category::Vehicles
    } else if len == 6 && c0 == 'C' && c1 == 'o' {
        Category::Comics
    } else if len == 7 && c0 == 'G' && c1 == 'a' {
        Category::Gadgets
    } else if len == 21 && c0 == 'J' && c1 == 'a' {
        Category::JapaneseAnimeAndManga
    } else if len == 20 && c0 == 'C' && c1 == 'a' {
        Category::CartoonAndAnimations
    } else {
        Category::Any
    }
}

/// No two categories share a name.
pub proof fn lemma_category_names_distinct(c: Category, d: Category)
    requires
        c.spec_name() == d.spec_name(),
    ensures
        c == d,
{
    let n = c.spec_name();
    assert(category_by_name_key(n.len(), n[0], n[1]) == c);
    assert(category_by_name_key(n.len(), n[0], n[1]) == d);
}

/// A category's display text from the wire, brought to the form of a
/// variant name: spaces are dropped, everything up to the last colon is
/// dropped, and each `&` is spelled `And`.
pub open spec fn category_text(s: Seq<char>) -> Seq<char>
    decreases s.len(),
{
    if s.len() == 0 {
        Seq::empty()
    } else {
        let before = category_text(s.drop_last());
        let c = s.last();
        if c == ' ' {
            before
        } else if c == ':' {
            Seq::empty()
        } else if c == '&' {
            before + seq!['A', 'n', 'd']
        } else {
            before.push(c)
        }
    }
}

/// The first category, by id from `id` up to 32, whose name is `t`; `Any`
/// where none is.
pub open spec fn category_named_from(t: Seq<char>, id: int) -> Category
    decreases 33 - id,
{
    if 9 <= id <= 32 {
        match Category::spec_from_id(id) {
            Some(c) => if c.spec_name() == t {
                c
            } else {
                category_named_from(t, id + 1)
            },
            None => Category::Any,
        }
    } else {
        Category::Any
    }
}

/// The category that a normalized name `t` stands for; `Any` where it names none.
pub open spec fn category_named(t: Seq<char>) -> Category {
    category_named_from(t, 9)
}

/// The characters of `s` brought to the form of a variant name.
fn category_text_chars(s: &str) -> (r: Vec<char>)
    ensures
        r@ == category_text(s@),
{
    let cs = crate::text::chars_of(s);
    let mut out: Vec<char> = Vec::new();
    let mut i: usize = 0;
    while i < cs.len()
        invariant
            cs@ == s@,
            i <= cs@.len(),
            out@ == category_text(cs@.subrange(0, i as int)),
        decreases cs@.len() - i,
    {
        let c = cs[i];
        let ghost before = out@;
        assert(cs@.subrange(0, i + 1).drop_last() =~= cs@.subrange(0, i as int));
        if c == ' ' {
        } else if c == ':' {
            out = Vec::new();
            assert(out@ =~= Seq::<char>::empty());
        } else if c == '&' {
            out.push('A');
            out.push('n');
            out.push('d');
            assert(out@ =~= before + seq!['A', 'n', 'd']);
        } else {
            out.push(c);
        }
        i = i + 1;
    }
    assert(cs@.subrange(0, cs@.len() as int) =~= cs@);
    out
}

impl Category {
    /// The value of the `category` parameter that selects this category: its
    /// id in decimal; none for `Any`.
    pub open spec fn spec_query_value(self) -> Option<Seq<char>> {
        if self == Category::Any {
            None
        } else {
            Some(decimal(self.spec_id() as nat))
        }
    }

    /// The value of the `category` parameter that selects this category; none for `Any`.
    pub fn query_value(self) -> (r: Option<String>)
        ensures
            r is Some <==> self.spec_query_value() is Some,
            r matches Some(v) ==> self.spec_query_value() == Some(v@),
    {
        let id = self.id();
        if id == 0 {
            None
        } else {
            Some(decimal_text(id))
        }
    }

    /// Appends the `category` parameter that selects this category, if any.
    pub fn prepare(self, query: &mut Vec<QueryPair>)
        ensures
            pairs_view(final(query)@) == pairs_view(old(query)@) + optional_pair(
                "category"@,
                self.spec_query_value(),
            ),
    {
        match self.query_value() {
            Some(v) => {
                let ghost w = v@;
                push_pair(query, "category", v);
                assert(pairs_view(final(query)@) =~= pairs_view(old(query)@) + seq![("category"@, w)]);
            },
            None => {
                assert(pairs_view(final(query)@) =~= pairs_view(old(query)@) + Seq::empty());
            },
        }
    }

    /// The category that the display text `s` names once normalized (see
    /// `category_text`); `Any` where it names none.
    pub fn from_display_text(s: &str) -> (r: Category)
        ensures
            r == category_named(category_text(s@)),
    {
        let t = category_text_chars(s);
        let mut id: u8 = 9;
        while id <= 32
            invariant
                9 <= id <= 33,
                t@ == category_text(s@),
                category_named(t@) == category_named_from(t@, id as int),
            decreases 33 - id,
        {
            match Category::from_id(id) {
                Some(c) => {
                    if crate::text::chars_are(&t, c.name()) {
                        return c;
                    }
                },
                None => {
                    return Category::Any;
                },
            }
            id = id + 1;
        }
        Category::Any
    }

    /// Reads a category from its base64 wire form. Display text that names no
    /// category gives `Any`; only base64 or UTF-8 that is broken is an error.
    pub fn decode(s: &str) -> (r: Result<Category, DecodingError>)
        ensures
            r is Ok <==> base64_text(s@) is Some,
            r matches Ok(c) ==> c == category_named(category_text(base64_text(s@)->0)),
            r matches Err(e) ==> text_failure(s@, e),
    {
        let t = base64_string(s)?;
        Ok(Category::from_display_text(t.as_str()))
    }
}

/// Text without spaces, colons or ampersands is its own normal form.
proof fn lemma_category_text_plain(s: Seq<char>)
    requires
        forall|i: int| 0 <= i < s.len() ==> #[trigger] s[i] != ' ' && s[i] != ':' && s[i] != '&',
    ensures
        category_text(s) == s,
    decreases s.len(),
{
    if s.len() > 0 {
        lemma_category_text_plain(s.drop_last());
        assert(s.drop_last().push(s.last()) =~= s);
    }
}

/// The search from `id` finds `c` where `c`'s id lies at or after `id`.
proof fn lemma_named_from_finds(c: Category, id: int)
    requires
        c != Category::Any,
        9 <= id <= c.spec_id(),
    ensures
        category_named_from(c.spec_name(), id) == c,
    decreases c.spec_id() - id,
{
    let d = Category::spec_from_id(id)->0;
    assert(Category::spec_from_id(id) is Some);
    if d.spec_name() == c.spec_name() {
        lemma_category_names_distinct(c, d);
    } else {
        if id == c.spec_id() {
            assert(d == c);
        } else {
            lemma_named_from_finds(c, id + 1);
        }
    }
}

/// Each id from 9 to 32 is the id of a category, whose query value renders
/// the id in decimal; that value reads back as the same id, and as a
/// statistics key it names the same category. The id 0 is `Any`, which
/// renders no query parameter.
pub proof fn lemma_category_id_round_trip(id: u8)
    requires
        id == 0 || 9 <= id <= 32,
    ensures
        Category::spec_from_id(id as int) is Some,
        ({
            let c = Category::spec_from_id(id as int)->0;
            &&& c.spec_id() == id
            &&& id == 0 ==> c.spec_query_value() is None
            &&& id != 0 ==> c.spec_query_value() == Some(decimal(id as nat))
        }),
        is_decimal(decimal(id as nat)),
        digits_value(decimal(id as nat)) == id,
        id != 0 ==> key_category(decimal(id as nat)) == Category::spec_from_id(id as int),
{
    lemma_decimal(id as nat);
    if id != 0 {
        lemma_key_of_category(Category::spec_from_id(id as int)->0, 9);
    }
}

/// A category's own name, however it reaches the decoder as display text,
/// decodes back to that category; so does any base64 field carrying it.
pub proof fn lemma_category_name_round_trip(c: Category, s: Seq<char>)
    requires
        base64_text(s) == Some(c.spec_name()),
    ensures
        category_text(c.spec_name()) == c.spec_name(),
        category_named(category_text(c.spec_name())) == c,
        category_named(category_text(base64_text(s)->0)) == c,
{
    lemma_category_text_plain(c.spec_name());
    if c == Category::Any {
        assert forall|id: int| 9 <= id <= 32 implies (#[trigger] Category::spec_from_id(id)) is Some
            && Category::spec_from_id(id)->0.spec_name() != c.spec_name() by {
            let d = Category::spec_from_id(id)->0;
            if d.spec_name() == c.spec_name() {
                lemma_category_names_distinct(c, d);
            }
        }
        lemma_named_from_misses(c.spec_name(), 9);
    } else {
        lemma_named_from_finds(c, 9);
    }
}

/// A search for a text that no category from `id` on is named finds `Any`.
proof fn lemma_named_from_misses(t: Seq<char>, id: int)
    requires
        forall|j: int|
            9 <= j <= 32 ==> (#[trigger] Category::spec_from_id(j)) is Some
                && Category::spec_from_id(j)->0.spec_name() != t,
    ensures
        category_named_from(t, id) == Category::Any,
    decreases 33 - id,
{
    if 9 <= id <= 32 {
        assert(Category::spec_from_id(id) is Some);
        lemma_named_from_misses(t, id + 1);
    }
}

/// What an option set holds: the options that are set.
pub struct OptionsView {
    pub question_number: Option<u8>,
    pub category: Option<Category>,
    pub difficulty: Option<Difficulty>,
    pub kind: Option<Kind>,
}

impl OptionsView {
    /// The question count, where it is set, is at most 50.
    pub open spec fn wf(self) -> bool {
        self.question_number matches Some(n) ==> n <= 50
    }

    /// No option is set.
    pub open spec fn is_empty(self) -> bool {
        &&& self.question_number is None
        &&& self.category is None
        &&& self.difficulty is None
        &&& self.kind is None
    }

    /// The query parameters that the set options add, in this order:
    /// `amount`, `category`, `difficulty`, `type`.
    pub open spec fn query(self) -> Seq<(Seq<char>, Seq<char>)> {
        amount_part(self.question_number) + category_part(self.category) + difficulty_part(
            self.difficulty,
        ) + kind_part(self.kind)
    }
}

/// The `amount` parameter of a question count, where one is set.
pub open spec fn amount_part(n: Option<u8>) -> Seq<(Seq<char>, Seq<char>)> {
    match n {
        Some(n) => seq![("amount"@, decimal(n as nat))],
        None => Seq::empty(),
    }
}

/// The `category` parameter of a category, where one is set.
pub open spec fn category_part(c: Option<Category>) -> Seq<(Seq<char>, Seq<char>)> {
    match c {
        Some(c) => optional_pair("category"@, c.spec_query_value()),
        None => Seq::empty(),
    }
}

/// The `difficulty` parameter of a difficulty, where one is set.
pub open spec fn difficulty_part(d: Option<Difficulty>) -> Seq<(Seq<char>, Seq<char>)> {
    match d {
        Some(d) => optional_pair("difficulty"@, d.spec_query_value()),
        None => Seq::empty(),
    }
}

/// The `type` parameter of a kind, where one is set.
pub open spec fn kind_part(k: Option<Kind>) -> Seq<(Seq<char>, Seq<char>)> {
    match k {
        Some(k) => optional_pair("type"@, k.spec_query_value()),
        None => Seq::empty(),
    }
}

/// Appends the parameters of each option in turn.
pub(crate) fn prepare_parts(
    query: &mut Vec<QueryPair>,
    n: Option<u8>,
    c: Option<Category>,
    d: Option<Difficulty>,
    k: Option<Kind>,
)
    ensures
        pairs_view(final(query)@) == pairs_view(old(query)@) + amount_part(n) + category_part(c)
            + difficulty_part(d) + kind_part(k),
{
    let ghost start = pairs_view(query@);
    match n {
        Some(n) => push_pair(query, "amount", decimal_text(n)),
        None => {},
    }
    assert(pairs_view(query@) =~= start + amount_part(n));
    let ghost a = pairs_view(query@);
    match c {
        Some(c) => c.prepare(query),
        None => {},
    }
    assert(pairs_view(query@) =~= a + category_part(c));
    let ghost b = pairs_view(query@);
    match d {
        Some(d) => d.prepare(query),
        None => {},
    }
    assert(pairs_view(query@) =~= b + difficulty_part(d));
    let ghost e = pairs_view(query@);
    match k {
        Some(k) => k.prepare(query),
        None => {},
    }
    assert(pairs_view(query@) =~= e + kind_part(k));
}

/// An option set that has been prepared holds no option, so preparing it a
/// second time appends no parameter.
pub proof fn lemma_prepared_options_add_nothing(after: OptionsView)
    requires
        after.is_empty(),
    ensures
        after.query() == Seq::<(Seq<char>, Seq<char>)>::empty(),
{
    assert(after.query() =~= Seq::<(Seq<char>, Seq<char>)>::empty());
}

/// The options of a trivia request: question count, category, difficulty
/// and kind, each set at most once per request and consumed when the request
/// is prepared.
#[derive(Debug, Clone, Copy)]
pub struct Options {
    question_number: Option<u8>,
    category: Option<Category>,
    difficulty: Option<Difficulty>,
    kind: Option<Kind>,
}

impl View for Options {
    type V = OptionsView;

    closed spec fn view(&self) -> OptionsView {
        OptionsView {
            question_number: self.question_number,
            category: self.category,
            difficulty: self.difficulty,
            kind: self.kind,
        }
    }
}

impl Default for Options {
    fn default() -> (r: Self)
        ensures
            r@.is_empty(),
    {
        Options::new()
    }
}

impl Options {
    /// An option set with no option set.
    pub fn new() -> (r: Self)
        ensures
            r@.is_empty(),
            r@.wf(),
    {
        Options { question_number: None, category: None, difficulty: None, kind: None }
    }

    /// Appends the parameters of the set options to `query`, in the order
    /// `amount`, `category`, `difficulty`, `type`, and clears every option.
    pub fn prepare(&mut self, query: &mut Vec<QueryPair>)
        ensures
            pairs_view(final(query)@) == pairs_view(old(query)@) + old(self)@.query(),
            final(self)@.is_empty(),
    {
        let ghost opts = self@;
        let q = self.question_number;
        let c = self.category;
        let d = self.difficulty;
        let k = self.kind;
        self.question_number = None;
        self.category = None;
        self.difficulty = None;
        self.kind = None;
        prepare_parts(query, q, c, d, k);
        assert(amount_part(q) + category_part(c) + difficulty_part(d) + kind_part(k) == opts.query());
        assert(pairs_view(query@) =~= pairs_view(old(query)@) + opts.query());
    }

    /// Sets the number of questions to request. A number over 50 is refused
    /// with `InvalidOption`, and the option set is left as it was.
    pub fn question_number(&mut self, number: u8) -> (r: Result<&mut Self, HttpError>)
        ensures
            number <= 50 <==> r is Ok,
            r matches Ok(m) ==> (*m)@ == (OptionsView { question_number: Some(number), ..old(self)@ })
                && *final(self) == *final(m),
            r matches Err(e) ==> *final(self) == *old(self) && e is InvalidOption,
    {
        if number > 50 {
            return Err(HttpError::InvalidOption(String::from_str("the question number must be at most 50")));
        }
        self.question_number = Some(number);
        Ok(self)
    }

    /// The question count, where it is set.
    pub fn get_question_number(&self) -> (r: Option<u8>)
        ensures
            r == self@.question_number,
    {
        self.question_number
    }

    /// The category, where it is set.
    pub fn get_category(&self) -> (r: Option<Category>)
        ensures
            r == self@.category,
    {
        self.category
    }

    /// The difficulty, where it is set.
    pub fn get_difficulty(&self) -> (r: Option<Difficulty>)
        ensures
            r == self@.difficulty,
    {
        self.difficulty
    }

    /// The kind, where it is set.
    pub fn get_kind(&self) -> (r: Option<Kind>)
        ensures
            r == self@.kind,
    {
        self.kind
    }

    /// Sets the category of the requested questions, replacing any earlier one.
    pub fn category(&mut self, category: Category) -> (r: &mut Self)
        ensures
            r@ == (OptionsView { category: Some(category), ..old(self)@ }),
            *final(self) == *final(r),
    {
        self.category = Some(category);
        self
    }

    /// Sets the difficulty of the requested questions, replacing any earlier one.
    pub fn difficulty(&mut self, difficulty: Difficulty) -> (r: &mut Self)
        ensures
            r@ == (OptionsView { difficulty: Some(difficulty), ..old(self)@ }),
            *final(self) == *final(r),
    {
        self.difficulty = Some(difficulty);
        self
    }

    /// Sets the kind of the requested questions, replacing any earlier one.
    pub fn kind(&mut self, kind: Kind) -> (r: &mut Self)
        ensures
            r@ == (OptionsView { kind: Some(kind), ..old(self)@ }),
            *final(self) == *final(r),
    {
        self.kind = Some(kind);
        self
    }
}

} // verus!
