//! The request handlers: each runs one logical operation against the
//! collection it needs and turns the result into an outcome or a failure.

use vstd::prelude::*;

use crate::error::{Error, Outcome, STATUS_OK};
use crate::pagination::{
    clamped_end, clamped_start, extract_pagination, is_usize_text, usize_text_value, Pagination,
};
use crate::question::{Content, Question, QuestionId, QuestionView};
use crate::store::{
    has_key, key_index, put, question_views, values_of, AnswerTable, QuestionTable,
};

verus! {

/// What a listing returns for the given parameters over `qs` entries: all
/// of them without parameters, else the clamped range of them.
pub open spec fn listing(
    all: Seq<QuestionView>,
    start: Option<Seq<char>>,
    end: Option<Seq<char>>,
) -> Seq<QuestionView> {
    match (start, end) {
        (Some(s), Some(e)) => {
            let p = Pagination { start: usize_text_value(s) as usize, end: usize_text_value(e) as usize };
            all.subrange(clamped_start(p, all.len()) as int, clamped_end(p, all.len()) as int)
        },
        _ => all,
    }
}

/// Lists the questions. Without `start` and `end` every question comes
/// back; with both, the range they give, clamped to the list. One of them
/// alone, or one that does not read as a number, fails.
pub fn get_questions(questions: &QuestionTable, start: Option<&str>, end: Option<&str>) -> (r:
    Result<Vec<Question>, Error>)
    ensures
        start is None && end is None ==> (r matches Ok(v) && question_views(v@) == values_of(
            questions@,
        )),
        start is None && end is Some ==> (r matches Err(Error::MissingParameter(p)) && p@
            == "start"@),
        start is Some && end is None ==> (r matches Err(Error::MissingParameter(p)) && p@
            == "end"@),
        match (start, end) {
            (Some(s), Some(e)) => if is_usize_text(s@) && is_usize_text(e@) {
                r matches Ok(v) && question_views(v@) == listing(
                    values_of(questions@),
                    Some(s@),
                    Some(e@),
                )
            } else {
                r matches Err(Error::ParseError(_))
            },
            _ => true,
        },
{
    if start.is_none() && end.is_none() {
        return Ok(questions.list_questions());
    }
    let pagination = match extract_pagination(start, end) {
        Ok(p) => p,
        Err(e) => {
            return Err(e);
        },
    };
    let n = questions.len();
    let range = pagination.clamp_to(n);
    let res = questions.slice(range.start, range.end);
    proof {
        let all = values_of(questions@);
        assert(all.len() == n);
    }
    Ok(res)
}

/// A listing without parameters holds every stored question, each in its
/// place, and two such listings of an unchanged table agree.
pub proof fn listing_is_complete_and_stable(
    t: Seq<(Seq<char>, QuestionView)>,
    first: Seq<QuestionView>,
    second: Seq<QuestionView>,
)
    requires
        first == values_of(t),
        second == values_of(t),
    ensures
        first == second,
        first.len() == t.len(),
        forall|i: int| 0 <= i < t.len() ==> first[i] == (#[trigger] t[i]).1,
{
}

/// Stores a question, replacing one with the same id.
pub fn add_question(questions: &mut QuestionTable, question: Question) -> (o: Outcome)
    requires
        old(questions).wf(),
    ensures
        final(questions).wf(),
        final(questions)@ == put(old(questions)@, question@.id, question@),
        o.message@ == "Question added"@,
        o.status == STATUS_OK,
{
    questions.create_question(question);
    Outcome::confirm("Question added")
}

/// Replaces the question stored under `id`.
pub fn update_question(id: QuestionId, questions: &mut QuestionTable, question: Question) -> (r:
    Result<Outcome, Error>)
    requires
        old(questions).wf(),
    ensures
        final(questions).wf(),
        match r {
            Ok(o) => has_key(old(questions)@, id@) && final(questions)@ == old(questions)@.update(key_index(old(questions)@, id@), (id@, question@)) && o.message@
                == "Question updated"@ && o.status == STATUS_OK,
            Err(e) => !has_key(old(questions)@, id@) && e is QuestionNotFound && final(questions)@ == old(questions)@,
        },
{
    match questions.update_question(&id, question) {
        Ok(()) => Ok(Outcome::confirm("Question updated")),
        Err(e) => Err(e),
    }
}

/// Takes out the question stored under `id`.
pub fn delete_question(id: QuestionId, questions: &mut QuestionTable) -> (r: Result<
    Outcome,
    Error,
>)
    requires
        old(questions).wf(),
    ensures
        final(questions).wf(),
        match r {
            Ok(o) => has_key(old(questions)@, id@) && final(questions)@ == old(questions)@.remove(key_index(old(questions)@, id@)) && o.message@ == "Question removed"@
                && o.status == STATUS_OK,
            Err(e) => !has_key(old(questions)@, id@) && e is QuestionNotFound && final(questions)@ == old(questions)@,
        },
{
    match questions.delete_question(&id) {
        Ok(()) => Ok(Outcome::confirm("Question removed")),
        Err(e) => Err(e),
    }
}

/// Attaches an answer with the given `content` to a question, given
/// whether that question was found a moment before. Without `content`
/// nothing is stored.
pub fn add_answer(
    question_exists: bool,
    answers: &mut AnswerTable,
    question_id: QuestionId,
    content: Option<&str>,
) -> (r: Result<Outcome, Error>)
    requires
        old(answers).wf(),
    ensures
        final(answers).wf(),
        content is None ==> (r matches Err(Error::MissingParameter(p)) && p@ == "content"@
            && final(answers)@ == old(answers)@),
        match content {
            Some(c) => match r {
                Ok(o) => {
                    let added = final(answers)@.last();
                    &&& question_exists
                    &&& o.message@ == "Answer added"@
                    &&& o.status == STATUS_OK
                    &&& final(answers)@ == old(answers)@.push(added)
                    &&& added.0 == added.1.id
                    &&& !has_key(old(answers)@, added.0)
                    &&& added.1.question_id == question_id@
                    &&& added.1.content == c@
                },
                Err(e) => !question_exists && e is QuestionNotFound && final(answers)@ == old(
                    answers)@,
            },
            None => true,
        },
{
    match content {
        None => Err(Error::MissingParameter(String::from_str("content"))),
        Some(c) => {
            let text = Content(c.to_owned());
            match answers.create_answer(question_exists, question_id, text) {
                Ok(_) => Ok(Outcome::confirm("Answer added")),
                Err(e) => Err(e),
            }
        },
    }
}

} // verus!
