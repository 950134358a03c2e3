//! A second option set with the behaviour of `Options`.

use vstd::prelude::*;
use crate::error::HttpError;
use crate::options::{
    amount_part, category_part, difficulty_part, kind_part, pairs_view, prepare_parts, Category,
    Difficulty, Kind, OptionsView, QueryPair,
};

verus! {

/// An option set of the same shape as `Options`, for endpoints that take
/// the same query parameters.
#[derive(Debug, Clone, Copy)]
pub struct EndPointOptions {
    question_number: Option<u8>,
    category: Option<Category>,
    difficulty: Option<Difficulty>,
    kind: Option<Kind>,
}

impl View for EndPointOptions {
    type V = OptionsView;

    closed spec fn view(&self) -> OptionsView {
        OptionsView {
            question_number: self.question_number,
            category: self.category,
            difficulty: self.difficulty,
            kind: self.kind,
        }
    }
}

impl Default for EndPointOptions {
    fn default() -> (r: Self)
        ensures
            r@.is_empty(),
    {
        EndPointOptions::new()
    }
}

impl EndPointOptions {
    /// An option set with no option set.
    pub fn new() -> (r: Self)
        ensures
            r@.is_empty(),
            r@.wf(),
    {
        EndPointOptions { question_number: None, category: None, difficulty: None, kind: None }
    }

    /// Appends the parameters of the set options to `query`, in the order
    /// `amount`, `category`, `difficulty`, `type`, and clears every option.
    pub fn prepare(&mut self, query: &mut Vec<QueryPair>)
        ensures
            pairs_view(final(query)@) == pairs_view(old(query)@) + old(self)@.query(),
            final(self)@.is_empty(),
    {
        let ghost opts = self@;
        let q = self.question_number;
        let c = self.category;
        let d = self.difficulty;
        let k = self.kind;
        self.question_number = None;
        self.category = None;
        self.difficulty = None;
        self.kind = None;
        prepare_parts(query, q, c, d, k);
        assert(amount_part(q) + category_part(c) + difficulty_part(d) + kind_part(k) == opts.query());
        assert(pairs_view(query@) =~= pairs_view(old(query)@) + opts.query());
    }

    /// Sets the number of questions to request. A number over 50 is refused
    /// with `InvalidOption`, and the option set is left as it was.
    pub fn question_number(&mut self, number: u8) -> (r: Result<&mut Self, HttpError>)
        ensures
            number <= 50 <==> r is Ok,
            r matches Ok(m) ==> (*m)@ == (OptionsView { question_number: Some(number), ..old(self)@ })
                && *final(self) == *final(m),
            r matches Err(e) ==> *final(self) == *old(self) && e is InvalidOption,
    {
        if number > 50 {
            return Err(HttpError::InvalidOption(String::from_str("the question number must be at most 50")));
        }
        self.question_number = Some(number);
        Ok(self)
    }

    /// The question count, where it is set.
    pub fn get_question_number(&self) -> (r: Option<u8>)
        ensures
            r == self@.question_number,
    {
        self.question_number
    }

    /// The category, where it is set.
    pub fn get_category(&self) -> (r: Option<Category>)
        ensures
            r == self@.category,
    {
        self.category
    }

    /// The difficulty, where it is set.
    pub fn get_difficulty(&self) -> (r: Option<Difficulty>)
        ensures
            r == self@.difficulty,
    {
        self.difficulty
    }

    /// The kind, where it is set.
    pub fn get_kind(&self) -> (r: Option<Kind>)
        ensures
            r == self@.kind,
    {
        self.kind
    }

    /// Sets the category of the requested questions, replacing any earlier one.
    pub fn category(&mut self, category: Category) -> (r: &mut Self)
        ensures
            r@ == (OptionsView { category: Some(category), ..old(self)@ }),
            *final(self) == *final(r),
    {
        self.category = Some(category);
        self
    }

    /// Sets the difficulty of the requested questions, replacing any earlier one.
    pub fn difficulty(&mut self, difficulty: Difficulty) -> (r: &mut Self)
        ensures
            r@ == (OptionsView { difficulty: Some(difficulty), ..old(self)@ }),
            *final(self) == *final(r),
    {
        self.difficulty = Some(difficulty);
        self
    }

    /// Sets the kind of the requested questions, replacing any earlier one.
    pub fn kind(&mut self, kind: Kind) -> (r: &mut Self)
        ensures
            r@ == (OptionsView { kind: Some(kind), ..old(self)@ }),
            *final(self) == *final(r),
    {
        self.kind = Some(kind);
        self
    }
}

} // verus!
