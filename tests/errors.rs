use qa_store::error::{
    return_error, Error, Rejection, STATUS_FORBIDDEN, STATUS_NOT_FOUND,
    STATUS_RANGE_NOT_SATISFIABLE, STATUS_UNPROCESSABLE_ENTITY,
};
use qa_store::pagination::extract_pagination;
use qa_store::question::{Content, Question, QuestionId, Title};
use qa_store::routes::{add_answer, add_question, delete_question, update_question};
use qa_store::store::{AnswerTable, QuestionTable};

fn parse_failure() -> Error {
    extract_pagination(Some("x"), Some("1")).unwrap_err()
}

#[test]
fn parse_error_message_and_status() {
    let e = parse_failure();
    assert_eq!(e.message(), "Cannot parse parameter: invalid digit found in string");
    assert_eq!(e.status(), STATUS_UNPROCESSABLE_ENTITY);
}

#[test]
fn missing_parameter_message_and_status() {
    let e = Error::MissingParameter("content".to_string());
    assert_eq!(e.message(), "Missing parameter: 'content'");
    assert_eq!(e.status(), 422);
}

#[test]
fn question_not_found_message_and_status() {
    let e = Error::QuestionNotFound;
    assert_eq!(e.message(), "Question not found");
    assert_eq!(e.status(), 416);
}

#[test]
fn rejections_map_to_fixed_statuses() {
    let o = return_error(Rejection::CorsForbidden("origin not allowed".to_string()));
    assert_eq!((o.message.as_str(), o.status), ("origin not allowed", STATUS_FORBIDDEN));
    let o = return_error(Rejection::MalformedBody("bad json".to_string()));
    assert_eq!((o.message.as_str(), o.status), ("bad json", STATUS_UNPROCESSABLE_ENTITY));
    let o = return_error(Rejection::Failed(Error::QuestionNotFound));
    assert_eq!((o.message.as_str(), o.status), ("Question not found", STATUS_RANGE_NOT_SATISFIABLE));
    let o = return_error(Rejection::Failed(parse_failure()));
    assert_eq!(o.status, STATUS_UNPROCESSABLE_ENTITY);
    let o = return_error(Rejection::Unmatched);
    assert_eq!((o.message.as_str(), o.status), ("Route not found", STATUS_NOT_FOUND));
}

fn question(id: &str) -> Question {
    Question::new(
        QuestionId::from_str(id).unwrap(),
        Title::new("t".to_string()),
        Content("c".to_string()),
        None,
    )
}

#[test]
fn handlers_confirm_or_classify() {
    let mut qs = QuestionTable::new();
    let o = add_question(&mut qs, question("1"));
    assert_eq!((o.message.as_str(), o.status), ("Question added", 200));
    let o = update_question(QuestionId::from_str("1").unwrap(), &mut qs, question("1")).unwrap();
    assert_eq!(o.message, "Question updated");
    let e = update_question(QuestionId::from_str("2").unwrap(), &mut qs, question("2")).unwrap_err();
    assert!(matches!(e, Error::QuestionNotFound));
    let o = delete_question(QuestionId::from_str("1").unwrap(), &mut qs).unwrap();
    assert_eq!(o.message, "Question removed");
    let e = delete_question(QuestionId::from_str("1").unwrap(), &mut qs).unwrap_err();
    assert!(matches!(e, Error::QuestionNotFound));
}

#[test]
fn add_answer_checks_content_then_question() {
    let mut answers = AnswerTable::new();
    let id = || QuestionId::from_str("1").unwrap();
    let e = add_answer(true, &mut answers, id(), None).unwrap_err();
    assert!(matches!(e, Error::MissingParameter(ref p) if p == "content"));
    let e = add_answer(false, &mut answers, id(), Some("hi")).unwrap_err();
    assert!(matches!(e, Error::QuestionNotFound));
    assert!(answers.list_answers().is_empty());
    let o = add_answer(true, &mut answers, id(), Some("hi")).unwrap();
    assert_eq!((o.message.as_str(), o.status), ("Answer added", 200));
    let all = answers.list_answers();
    assert_eq!(all.len(), 1);
    assert_eq!(all[0].content.0, "hi");
    assert_eq!(all[0].question_id.as_str(), "1");
}
