//! The values that responses carry, and how their wire forms are decoded:
//! base64 text fields, response codes, trivia and statistics.

use vstd::prelude::*;
use vstd::utf8::{decode_utf8, valid_utf8};
use crate::error::DecodingError;
use crate::options::{
    category_named, category_text, difficulty_failure, kind_failure, Category, Difficulty, Kind,
};
use crate::text::{decimal, decimal_text, lemma_decimal, same_text};

verus! {

/// The bytes that standard base64, padding included, decodes the text `s`
/// to, or `None` where `s` is not valid standard base64.
pub uninterp spec fn base64_standard(s: Seq<char>) -> Option<Seq<u8>>;

/// Relies on `base64::engine::general_purpose::STANDARD.decode`: whether it
/// succeeds, and the bytes it gives, depend on the text alone.
#[verifier::external_body]
fn decode_base64(s: &str) -> (r: Result<Vec<u8>, base64::DecodeError>)
    ensures
        match r {
            Ok(b) => base64_standard(s@) == Some(b@),
            Err(_) => base64_standard(s@) is None,
        },
{
    base64::engine::Engine::decode(&base64::engine::general_purpose::STANDARD, s)
}

/// Relies on `String::from_utf8`: it accepts exactly the valid UTF-8 byte
/// strings, and the string holds the characters they encode.
#[verifier::external_body]
fn string_from_utf8(b: Vec<u8>) -> (r: Result<String, std::string::FromUtf8Error>)
    ensures
        r is Ok <==> valid_utf8(b@),
        r matches Ok(s) ==> s@ == decode_utf8(b@),
{
    String::from_utf8(b)
}

/// The text that the base64 field `s` carries: its decoded bytes read as UTF-8.
pub open spec fn base64_text(s: Seq<char>) -> Option<Seq<char>> {
    match base64_standard(s) {
        Some(b) => if valid_utf8(b) {
            Some(decode_utf8(b))
        } else {
            None
        },
        None => None,
    }
}

/// `e` is the error that decoding the base64 field `s` reports: a base64
/// error where `s` is not base64, a UTF-8 error where its bytes are not UTF-8.
pub open spec fn text_failure(s: Seq<char>, e: DecodingError) -> bool {
    match base64_standard(s) {
        None => e is Base64,
        Some(b) => !valid_utf8(b) && e is Utf8,
    }
}

/// Decodes a base64 text field.
pub fn base64_string(s: &str) -> (r: Result<String, DecodingError>)
    ensures
        r is Ok <==> base64_text(s@) is Some,
        r matches Ok(t) ==> base64_text(s@) == Some(t@),
        r matches Err(e) ==> text_failure(s@, e),
{
    match decode_base64(s) {
        Ok(bytes) => match string_from_utf8(bytes) {
            Ok(t) => Ok(t),
            Err(e) => Err(DecodingError::Utf8(e)),
        },
        Err(e) => Err(DecodingError::Base64(e)),
    }
}

/// `e` is the error that decoding the list of base64 fields `v` reports: the
/// error of its first field that does not decode.
pub open spec fn texts_failure(v: Seq<String>, e: DecodingError) -> bool {
    exists|i: int|
        0 <= i < v.len() && text_failure(#[trigger] v[i]@, e) && forall|j: int|
            0 <= j < i ==> (#[trigger] base64_text(v[j]@)) is Some
}

/// Decodes a list of base64 text fields, in order; the first field that
/// fails decides the error.
pub fn base64_vec(v: &Vec<String>) -> (r: Result<Vec<String>, DecodingError>)
    ensures
        r is Ok <==> forall|i: int| 0 <= i < v@.len() ==> (#[trigger] base64_text(v@[i]@)) is Some,
        r matches Ok(w) ==> w@.len() == v@.len() && forall|i: int|
            0 <= i < v@.len() ==> base64_text(#[trigger] v@[i]@) == Some(w@[i]@),
        r matches Err(e) ==> texts_failure(v@, e),
{
    let mut w: Vec<String> = Vec::new();
    let mut i: usize = 0;
    while i < v.len()
        invariant
            i <= v@.len(),
            w@.len() == i,
            forall|j: int| 0 <= j < i ==> base64_text(#[trigger] v@[j]@) == Some(w@[j]@),
        decreases v@.len() - i,
    {
        match base64_string(v[i].as_str()) {
            Ok(t) => {
                w.push(t);
            },
            Err(e) => {
                assert(text_failure(v@[i as int]@, e));
                assert(texts_failure(v@, e));
                return Err(e);
            },
        }
        i = i + 1;
    }
    Ok(w)
}

/// All the response codes that a base response can carry.
#[derive(Debug, Clone, Copy, PartialEq, Eq, Structural)]
pub enum ResponseCode {
    /// The request finished successfully.
    Success,
    /// There are not enough questions for the query.
    NoResults,
    /// The request holds an invalid parameter.
    InvalidParameter,
    /// The token does not exist.
    TokenNotFound,
    /// The token has returned every question for the query; reset it or make a new one.
    TokenEmpty,
}

impl ResponseCode {
    /// The response code that the wire number `n` stands for, if any.
    pub open spec fn spec_from_code(n: int) -> Option<ResponseCode> {
        if n == 0 {
            Some(ResponseCode::Success)
        } else if n == 1 {
            Some(ResponseCode::NoResults)
        } else if n == 2 {
            Some(ResponseCode::InvalidParameter)
        } else if n == 3 {
            Some(ResponseCode::TokenNotFound)
        } else if n == 4 {
            Some(ResponseCode::TokenEmpty)
        } else {
            None
        }
    }

    /// Reads a response code from its wire number; a number outside `0..=4`
    /// is an error that names it.
    pub fn decode(n: u64) -> (r: Result<ResponseCode, DecodingError>)
        ensures
            match ResponseCode::spec_from_code(n as int) {
                Some(c) => r == Ok::<ResponseCode, DecodingError>(c),
                None => r matches Err(DecodingError::ResponseCode(m)) && m == n,
            },
    {
        match n {
            0 => Ok(ResponseCode::Success),
            1 => Ok(ResponseCode::NoResults),
            2 => Ok(ResponseCode::InvalidParameter),
            3 => Ok(ResponseCode::TokenNotFound),
            4 => Ok(ResponseCode::TokenEmpty),
            _ => Err(DecodingError::ResponseCode(n)),
        }
    }
}

/// The envelope of the trivia endpoint: a response code and the results.
#[derive(Debug)]
pub struct BaseResponse<T> {
    /// What the API says of the request's outcome.
    pub response_code: ResponseCode,
    /// The results of the request.
    pub results: T,
}

impl<T> BaseResponse<T> {
    /// Builds an envelope from its wire response code and decoded results;
    /// a code outside `0..=4` is an error that names it.
    pub fn decode(code: u64, results: T) -> (r: Result<BaseResponse<T>, DecodingError>)
        ensures
            match ResponseCode::spec_from_code(code as int) {
                Some(c) => r matches Ok(b) && b.response_code == c && b.results == results,
                None => r matches Err(DecodingError::ResponseCode(m)) && m == code,
            },
    {
        let response_code = ResponseCode::decode(code)?;
        Ok(BaseResponse { response_code, results })
    }
}

/// A trivia question as the wire gives it: every field base64 text.
#[derive(Debug)]
pub struct RawTrivia {
    pub category: String,
    pub kind: String,
    pub difficulty: String,
    pub question: String,
    pub correct_answer: String,
    pub incorrect_answers: Vec<String>,
}

/// A trivia question with all its data.
#[derive(Debug)]
pub struct Trivia {
    /// The category the question belongs to.
    pub category: Category,
    /// The kind of answers the question has.
    pub kind: Kind,
    /// The difficulty of the question.
    pub difficulty: Difficulty,
    /// The question.
    pub question: String,
    /// The correct answer.
    pub correct_answer: String,
    /// The incorrect answers, in the order given.
    pub incorrect_answers: Vec<String>,
}

/// Every field of `raw` decodes.
pub open spec fn trivia_decodes(raw: RawTrivia) -> bool {
    &&& base64_text(raw.category@) is Some
    &&& base64_text(raw.kind@) matches Some(t) && Kind::spec_named(t) is Some
    &&& base64_text(raw.difficulty@) matches Some(t) && Difficulty::spec_named(t) is Some
    &&& base64_text(raw.question@) is Some
    &&& base64_text(raw.correct_answer@) is Some
    &&& forall|i: int|
        0 <= i < raw.incorrect_answers@.len() ==> (#[trigger] base64_text(
            raw.incorrect_answers@[i]@,
        )) is Some
}

/// `t` is what the fields of `raw` decode to.
pub open spec fn decoded_as(raw: RawTrivia, t: Trivia) -> bool {
    &&& t.category == category_named(category_text(base64_text(raw.category@)->0))
    &&& Kind::spec_named(base64_text(raw.kind@)->0) == Some(t.kind)
    &&& Difficulty::spec_named(base64_text(raw.difficulty@)->0) == Some(t.difficulty)
    &&& base64_text(raw.question@) == Some(t.question@)
    &&& base64_text(raw.correct_answer@) == Some(t.correct_answer@)
    &&& t.incorrect_answers@.len() == raw.incorrect_answers@.len()
    &&& forall|i: int|
        0 <= i < raw.incorrect_answers@.len() ==> base64_text(#[trigger] raw.incorrect_answers@[i]@)
            == Some(t.incorrect_answers@[i]@)
}

/// `e` is the error of the first field of `raw` that does not decode, the
/// fields taken in the order category, kind, difficulty, question, correct
/// answer, incorrect answers.
pub open spec fn trivia_failure(raw: RawTrivia, e: DecodingError) -> bool {
    if base64_text(raw.category@) is None {
        text_failure(raw.category@, e)
    } else if !(base64_text(raw.kind@) matches Some(t) && Kind::spec_named(t) is Some) {
        kind_failure(raw.kind@, e)
    } else if !(base64_text(raw.difficulty@) matches Some(t) && Difficulty::spec_named(t) is Some) {
        difficulty_failure(raw.difficulty@, e)
    } else if base64_text(raw.question@) is None {
        text_failure(raw.question@, e)
    } else if base64_text(raw.correct_answer@) is None {
        text_failure(raw.correct_answer@, e)
    } else {
        texts_failure(raw.incorrect_answers@, e)
    }
}

impl Trivia {
    /// Decodes a trivia question from its wire form.
    pub fn decode(raw: &RawTrivia) -> (r: Result<Trivia, DecodingError>)
        ensures
            r is Ok <==> trivia_decodes(*raw),
            r matches Ok(t) ==> decoded_as(*raw, t),
            r matches Err(e) ==> trivia_failure(*raw, e),
    {
        let category = Category::decode(raw.category.as_str())?;
        let kind = Kind::decode(raw.kind.as_str())?;
        let difficulty = Difficulty::decode(raw.difficulty.as_str())?;
        let question = base64_string(raw.question.as_str())?;
        let correct_answer = base64_string(raw.correct_answer.as_str())?;
        let incorrect_answers = base64_vec(&raw.incorrect_answers)?;
        Ok(Trivia { category, kind, difficulty, question, correct_answer, incorrect_answers })
    }
}

impl BaseResponse<Vec<Trivia>> {
    /// Decodes the trivia endpoint's envelope: the response code first, then
    /// each question in order; the first failure decides the error.
    pub fn decode_trivia(code: u64, raw: &Vec<RawTrivia>) -> (r: Result<
        BaseResponse<Vec<Trivia>>,
        DecodingError,
    >)
        ensures
            ResponseCode::spec_from_code(code as int) is None ==> (r matches Err(
                DecodingError::ResponseCode(m),
            ) && m == code),
            r is Ok <==> ResponseCode::spec_from_code(code as int) is Some && forall|i: int|
                0 <= i < raw@.len() ==> trivia_decodes(#[trigger] raw@[i]),
            r matches Ok(b) ==> Some(b.response_code) == ResponseCode::spec_from_code(code as int)
                && b.results@.len() == raw@.len() && forall|i: int|
                0 <= i < raw@.len() ==> decoded_as(#[trigger] raw@[i], b.results@[i]),
            ResponseCode::spec_from_code(code as int) is Some ==> (r matches Err(e) ==> exists|i: int|
                0 <= i < raw@.len() && trivia_failure(#[trigger] raw@[i], e) && forall|j: int|
                    0 <= j < i ==> trivia_decodes(#[trigger] raw@[j])),
    {
        let response_code = ResponseCode::decode(code)?;
        let mut results: Vec<Trivia> = Vec::new();
        let mut i: usize = 0;
        while i < raw.len()
            invariant
                i <= raw@.len(),
                ResponseCode::spec_from_code(code as int) == Some(response_code),
                results@.len() == i,
                forall|j: int| 0 <= j < i ==> trivia_decodes(#[trigger] raw@[j]),
                forall|j: int| 0 <= j < i ==> decoded_as(#[trigger] raw@[j], results@[j]),
            decreases raw@.len() - i,
        {
            match Trivia::decode(&raw[i]) {
                Ok(t) => {
                    results.push(t);
                },
                Err(e) => {
                    assert(trivia_failure(raw@[i as int], e));
                    return Err(e);
                },
            }
            i = i + 1;
        }
        Ok(BaseResponse { response_code, results })
    }
}

/// The question counts of one category.
#[derive(Debug, Clone, Copy, PartialEq, Eq, Structural)]
pub struct QuestionCount {
    /// The total number of questions in the category.
    pub total_questions: u32,
    /// The number of easy questions.
    pub easy_questions: u32,
    /// The number of medium questions.
    pub medium_questions: u32,
    /// The number of hard questions.
    pub hard_questions: u32,
}

/// The details of one category.
#[derive(Debug, Clone, Copy, PartialEq, Eq, Structural)]
pub struct CategoryDetails {
    /// The id of the category.
    pub id: u8,
    /// How many questions the category has, by difficulty.
    pub question_count: QuestionCount,
}

/// Question statistics, of the whole API or of one category.
#[derive(Debug, Clone, Copy, PartialEq, Eq, Structural)]
pub struct GlobalDetail {
    /// The total number of questions.
    pub total_questions: u32,
    /// The number of questions pending review.
    pub pending_questions: u32,
    /// The number of verified questions.
    pub verified_questions: u32,
    /// The number of rejected questions.
    pub rejected_questions: u32,
}

/// The statistics of the whole API.
#[derive(Debug)]
pub struct GlobalDetails {
    /// The statistics of the whole API.
    pub overall: GlobalDetail,
    /// The statistics of each category, in the order of the wire's keys.
    pub categories: Vec<(Category, GlobalDetail)>,
}

/// The category, searched by id from `id` up to 32, whose decimal id is
/// the key `k`.
pub open spec fn category_keyed_from(k: Seq<char>, id: int) -> Option<Category>
    decreases 33 - id,
{
    if 9 <= id <= 32 {
        if decimal(id as nat) == k {
            Category::spec_from_id(id)
        } else {
            category_keyed_from(k, id + 1)
        }
    } else {
        None
    }
}

/// The category that a statistics key names: the key must be the decimal
/// id, without leading zeros, of a category from 9 to 32.
pub open spec fn key_category(k: Seq<char>) -> Option<Category> {
    category_keyed_from(k, 9)
}

/// A key names a category only as that category's decimal id.
pub proof fn lemma_key_category(k: Seq<char>, id: int)
    requires
        category_keyed_from(k, id) is Some,
    ensures
        ({
            let c = category_keyed_from(k, id)->0;
            &&& c != Category::Any
            &&& k == decimal(c.spec_id() as nat)
        }),
    decreases 33 - id,
{
    if 9 <= id <= 32 && decimal(id as nat) != k {
        lemma_key_category(k, id + 1);
    }
}

/// The decimal id of each category from 9 to 32 is a key that names it.
pub proof fn lemma_key_of_category(c: Category, id: int)
    requires
        c != Category::Any,
        9 <= id <= c.spec_id(),
    ensures
        category_keyed_from(decimal(c.spec_id() as nat), id) == Some(c),
    decreases c.spec_id() - id,
{
    if id < c.spec_id() {
        lemma_decimal(id as nat);
        lemma_decimal(c.spec_id() as nat);
        lemma_key_of_category(c, id + 1);
    }
}

/// Reads the category that a statistics key names; any other key is an
/// error that names it.
pub fn category_of_key(k: &str) -> (r: Result<Category, DecodingError>)
    ensures
        r is Ok <==> key_category(k@) is Some,
        r matches Ok(c) ==> key_category(k@) == Some(c),
        r matches Err(e) ==> e matches DecodingError::CategoryKey(u) && u@ == k@,
{
    let mut id: u8 = 9;
    while id <= 32
        invariant
            9 <= id <= 33,
            key_category(k@) == category_keyed_from(k@, id as int),
        decreases 33 - id,
    {
        let t = decimal_text(id);
        if same_text(k, t.as_str()) {
            match Category::from_id(id) {
                Some(c) => {
                    return Ok(c);
                },
                None => {
                    return Err(DecodingError::CategoryKey(String::from_str(k)));
                },
            }
        }
        id = id + 1;
    }
    Err(DecodingError::CategoryKey(String::from_str(k)))
}

impl GlobalDetails {
    /// Builds the API statistics from the overall entry and the per-category
    /// entries keyed as on the wire. Each key must name a category from 9 to
    /// 32; the first that does not is the error.
    pub fn decode(overall: GlobalDetail, entries: &Vec<(String, GlobalDetail)>) -> (r: Result<
        GlobalDetails,
        DecodingError,
    >)
        ensures
            r is Ok <==> forall|i: int|
                0 <= i < entries@.len() ==> (#[trigger] key_category(entries@[i].0@)) is Some,
            r matches Ok(g) ==> g.overall == overall && g.categories@.len() == entries@.len()
                && forall|i: int|
                0 <= i < entries@.len() ==> (#[trigger] g.categories@[i]) == (
                    key_category(entries@[i].0@)->0,
                    entries@[i].1,
                ),
            r matches Ok(g) ==> (forall|i: int, j: int|
                0 <= i < j < entries@.len() ==> entries@[i].0@ != entries@[j].0@) ==> g.distinct(),
            r matches Err(e) ==> exists|i: int|
                0 <= i < entries@.len() && (#[trigger] key_category(entries@[i].0@)) is None
                    && (e matches DecodingError::CategoryKey(u) && u@ == entries@[i].0@)
                    && forall|j: int|
                    0 <= j < i ==> (#[trigger] key_category(entries@[j].0@)) is Some,
    {
        let mut categories: Vec<(Category, GlobalDetail)> = Vec::new();
        let mut i: usize = 0;
        while i < entries.len()
            invariant
                i <= entries@.len(),
                categories@.len() == i,
                forall|j: int| 0 <= j < i ==> (#[trigger] key_category(entries@[j].0@)) is Some,
                forall|j: int|
                    0 <= j < i ==> (#[trigger] categories@[j]) == (
                        key_category(entries@[j].0@)->0,
                        entries@[j].1,
                    ),
            decreases entries@.len() - i,
        {
            let entry = &entries[i];
            match category_of_key(entry.0.as_str()) {
                Ok(c) => {
                    categories.push((c, entry.1));
                },
                Err(e) => {
                    return Err(e);
                },
            }
            i = i + 1;
        }
        let g = GlobalDetails { overall, categories };
        proof {
            if forall|i: int, j: int|
                0 <= i < j < entries@.len() ==> entries@[i].0@ != entries@[j].0@ {
                assert forall|i: int, j: int| 0 <= i < j < g.categories@.len() implies g.categories@[i].0
                    != g.categories@[j].0 by {
                    assert(key_category(entries@[i].0@) is Some);
                    assert(key_category(entries@[j].0@) is Some);
                    lemma_key_category(entries@[i].0@, 9);
                    lemma_key_category(entries@[j].0@, 9);
                }
            }
        }
        Ok(g)
    }

    /// No category has two entries.
    pub open spec fn distinct(&self) -> bool {
        forall|i: int, j: int|
            0 <= i < j < self.categories@.len() ==> self.categories@[i].0 != self.categories@[j].0
    }

    /// The statistics of `category`: those of its first entry, where it has one.
    pub fn get(&self, category: Category) -> (r: Option<GlobalDetail>)
        ensures
            r is Some <==> exists|i: int|
                0 <= i < self.categories@.len() && (#[trigger] self.categories@[i]).0 == category,
            r matches Some(d) ==> exists|i: int|
                0 <= i < self.categories@.len() && #[trigger] self.categories@[i] == (category, d)
                    && forall|j: int| 0 <= j < i ==> (#[trigger] self.categories@[j]).0 != category,
    {
        let mut i: usize = 0;
        while i < self.categories.len()
            invariant
                i <= self.categories@.len(),
                forall|j: int| 0 <= j < i ==> (#[trigger] self.categories@[j]).0 != category,
            decreases self.categories@.len() - i,
        {
            let entry = self.categories[i];
            if entry.0 == category {
                return Some(entry.1);
            }
            i = i + 1;
        }
        None
    }
}

} // verus!
