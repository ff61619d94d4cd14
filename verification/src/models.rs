//! Domain models: plain value records for questions and answers, and the
//! storage-level error taxonomy.
use vstd::prelude::*;

verus! {

/// Caller-supplied input for creating a question: no identity, the store
/// assigns one at creation.
#[derive(Debug, PartialEq)]
pub struct Question {
    pub title: String,
    pub description: String,
}

/// Mathematical value of a `Question`.
pub struct QuestionView {
    pub title: Seq<char>,
    pub description: Seq<char>,
}

impl View for Question {
    type V = QuestionView;

    open spec fn view(&self) -> QuestionView {
        QuestionView { title: self.title@, description: self.description@ }
    }
}

/// A materialized question record: identifier and creation timestamp are
/// assigned by the store and immutable thereafter.
#[derive(Debug, PartialEq)]
pub struct QuestionDetail {
    pub question_uuid: String,
    pub title: String,
    pub description: String,
    pub created_at: String,
}

/// Mathematical value of a `QuestionDetail`.
pub struct QuestionDetailView {
    pub question_uuid: Seq<char>,
    pub title: Seq<char>,
    pub description: Seq<char>,
    pub created_at: Seq<char>,
}

impl View for QuestionDetail {
    type V = QuestionDetailView;

    open spec fn view(&self) -> QuestionDetailView {
        QuestionDetailView {
            question_uuid: self.question_uuid@,
            title: self.title@,
            description: self.description@,
            created_at: self.created_at@,
        }
    }
}

impl Clone for QuestionDetail {
    fn clone(&self) -> (res: Self)
        ensures
            res == *self,
    {
        QuestionDetail {
            question_uuid: self.question_uuid.clone(),
            title: self.title.clone(),
            description: self.description.clone(),
            created_at: self.created_at.clone(),
        }
    }
}

/// Identifier wrapper used for question delete and lookup requests.
#[derive(Debug, PartialEq)]
pub struct QuestionId {
    pub question_uuid: String,
}

impl View for QuestionId {
    type V = Seq<char>;

    open spec fn view(&self) -> Seq<char> {
        self.question_uuid@
    }
}

/// Caller-supplied input for creating an answer: must reference an existing
/// question.
#[derive(Debug, PartialEq)]
pub struct Answer {
    pub question_uuid: String,
    pub content: String,
}

/// Mathematical value of an `Answer`.
pub struct AnswerView {
    pub question_uuid: Seq<char>,
    pub content: Seq<char>,
}

impl View for Answer {
    type V = AnswerView;

    open spec fn view(&self) -> AnswerView {
        AnswerView { question_uuid: self.question_uuid@, content: self.content@ }
    }
}

/// A materialized answer record: identifier and creation timestamp are
/// assigned by the store and immutable thereafter.
#[derive(Debug, PartialEq)]
pub struct AnswerDetail {
    pub answer_uuid: String,
    pub question_uuid: String,
    pub content: String,
    pub created_at: String,
}

/// Mathematical value of an `AnswerDetail`.
pub struct AnswerDetailView {
    pub answer_uuid: Seq<char>,
    pub question_uuid: Seq<char>,
    pub content: Seq<char>,
    pub created_at: Seq<char>,
}

impl View for AnswerDetail {
    type V = AnswerDetailView;

    open spec fn view(&self) -> AnswerDetailView {
        AnswerDetailView {
            answer_uuid: self.answer_uuid@,
            question_uuid: self.question_uuid@,
            content: self.content@,
            created_at: self.created_at@,
        }
    }
}

impl Clone for AnswerDetail {
    fn clone(&self) -> (res: Self)
        ensures
            res == *self,
    {
        AnswerDetail {
            answer_uuid: self.answer_uuid.clone(),
            question_uuid: self.question_uuid.clone(),
            content: self.content.clone(),
            created_at: self.created_at.clone(),
        }
    }
}

/// Identifier wrapper used for answer delete requests.
#[derive(Debug, PartialEq)]
pub struct AnswerId {
    pub answer_uuid: String,
}

impl View for AnswerId {
    type V = Seq<char>;

    open spec fn view(&self) -> Seq<char> {
        self.answer_uuid@
    }
}

/// The mathematical values of a sequence of question records.
pub open spec fn question_detail_views(s: Seq<QuestionDetail>) -> Seq<QuestionDetailView> {
    s.map_values(|q: QuestionDetail| q@)
}

/// The mathematical values of a sequence of answer records.
pub open spec fn answer_detail_views(s: Seq<AnswerDetail>) -> Seq<AnswerDetailView> {
    s.map_values(|a: AnswerDetail| a@)
}

/// Storage-level failure, classified once, inside the store access layer
/// that issued the call, never re-derived above it.
#[derive(Debug)]
pub enum DBError {
    /// A caller-supplied identifier failed to parse, or was well formed but
    /// does not reference an existing row. Both are caller-correctable and
    /// deliberately share one variant.
    InvalidUUID(String),
    /// Any other backend failure, carrying the rendered backend report.
    Other(String),
}

impl Clone for DBError {
    fn clone(&self) -> (res: Self)
        ensures
            res == *self,
    {
        match self {
            DBError::InvalidUUID(m) => DBError::InvalidUUID(m.clone()),
            DBError::Other(m) => DBError::Other(m.clone()),
        }
    }
}

} // verus!
