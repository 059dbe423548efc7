//! Answer records and their identifier.

use vstd::prelude::*;

use crate::question::{Content, QuestionId};

verus! {

/// Key of an answer record, minted by the store.
#[derive(Debug)]
pub struct AnswerId(pub String);

/// An answer, attached to one question when it was created.
#[derive(Debug)]
pub struct Answer {
    pub id: AnswerId,
    pub question_id: QuestionId,
    pub content: Content,
}

/// What an answer holds, as mathematical values.
pub struct AnswerView {
    pub id: Seq<char>,
    pub question_id: Seq<char>,
    pub content: Seq<char>,
}

impl View for AnswerId {
    type V = Seq<char>;

    open spec fn view(&self) -> Seq<char> {
        self.0@
    }
}

impl View for Answer {
    type V = AnswerView;

    open spec fn view(&self) -> AnswerView {
        AnswerView { id: self.id@, question_id: self.question_id@, content: self.content@ }
    }
}

impl AnswerId {
    /// The identifier spelled by a text.
    pub fn from_str(s: &str) -> (r: AnswerId)
        ensures
            r@ == s@,
    {
        AnswerId(s.to_owned())
    }

    /// Whether two identifiers are the same text.
    pub fn same(&self, other: &AnswerId) -> (r: bool)
        ensures
            r == (self@ == other@),
    {
        self.0 == other.0
    }
}

impl Clone for AnswerId {
    fn clone(&self) -> (r: Self)
        ensures
            r == *self,
    {
        AnswerId(self.0.clone())
    }
}

impl Clone for Answer {
    fn clone(&self) -> (r: Self)
        ensures
            r@ == self@,
    {
        Answer {
            id: self.id.clone(),
            question_id: self.question_id.clone(),
            content: self.content.clone(),
        }
    }
}

} // verus!
