use qa_store::answer::{Answer, AnswerId};
use qa_store::error::Error;
use qa_store::question::{Content, Question, QuestionId, Tag, Title};
use qa_store::store::{AnswerTable, QuestionTable, Store};

fn qid(s: &str) -> QuestionId {
    QuestionId::from_str(s).unwrap()
}

fn question(id: &str, title: &str) -> Question {
    Question::new(
        qid(id),
        Title::new(title.to_string()),
        Content(format!("content of {}", title)),
        Some(vec![Tag::new("faq".to_string())]),
    )
}

fn titles(qs: &[Question]) -> Vec<String> {
    qs.iter().map(|q| q.title().as_str().to_string()).collect()
}

#[test]
fn question_id_from_empty_text_fails() {
    assert!(QuestionId::from_str("").is_none());
}

#[test]
fn question_id_round_trips_its_text() {
    for s in ["1", "question-42", "é", " "] {
        let id = QuestionId::from_str(s).unwrap();
        assert_eq!(id.as_str(), s);
    }
}

#[test]
fn second_create_with_same_id_wins() {
    let mut t = QuestionTable::new();
    t.create_question(question("1", "first"));
    t.create_question(question("2", "other"));
    t.create_question(question("1", "second"));
    let all = t.list_questions();
    assert_eq!(titles(&all), vec!["second", "other"]);
    assert_eq!(t.len(), 2);
}

#[test]
fn update_of_absent_id_fails_and_changes_nothing() {
    let mut t = QuestionTable::new();
    t.create_question(question("1", "first"));
    let r = t.update_question(&qid("9"), question("9", "new"));
    assert!(matches!(r, Err(Error::QuestionNotFound)));
    assert_eq!(titles(&t.list_questions()), vec!["first"]);
}

#[test]
fn update_of_present_id_replaces_in_place() {
    let mut t = QuestionTable::new();
    t.create_question(question("1", "first"));
    t.create_question(question("2", "second"));
    assert!(t.update_question(&qid("1"), question("1", "changed")).is_ok());
    let all = t.list_questions();
    assert_eq!(titles(&all), vec!["changed", "second"]);
    assert_eq!(all[0].content().0, "content of changed");
    assert_eq!(all[0].tags().as_ref().unwrap()[0].as_str(), "faq");
}

#[test]
fn delete_of_absent_id_fails() {
    let mut t = QuestionTable::new();
    t.create_question(question("1", "first"));
    assert!(matches!(t.delete_question(&qid("2")), Err(Error::QuestionNotFound)));
    assert_eq!(t.len(), 1);
}

#[test]
fn delete_removes_only_that_entry() {
    let mut t = QuestionTable::new();
    for (id, title) in [("1", "a"), ("2", "b"), ("3", "c")] {
        t.create_question(question(id, title));
    }
    assert!(t.delete_question(&qid("2")).is_ok());
    assert_eq!(titles(&t.list_questions()), vec!["a", "c"]);
    assert!(!t.question_exists(&qid("2")));
    assert!(t.question_exists(&qid("1")));
    assert!(t.question_exists(&qid("3")));
}

#[test]
fn answer_to_absent_question_fails() {
    let mut store = Store::new(vec![], vec![]);
    let r = store.create_answer(qid("1"), Content("hello".to_string()));
    assert!(matches!(r, Err(Error::QuestionNotFound)));
    assert!(store.answers.list_answers().is_empty());
}

#[test]
fn answer_to_present_question_gets_fresh_id() {
    let mut store = Store::new(vec![(qid("1"), question("1", "first"))], vec![]);
    let a = store.create_answer(qid("1"), Content("one".to_string())).unwrap();
    let b = store.create_answer(qid("1"), Content("two".to_string())).unwrap();
    assert_eq!(a.question_id.as_str(), "1");
    assert_eq!(a.content.0, "one");
    assert_ne!(a.id.0, b.id.0);
    assert!(!a.id.0.is_empty());
    let stored = store.answers.list_answers();
    assert_eq!(stored.len(), 2);
    assert_eq!(stored[1].content.0, "two");
    assert!(store.answers.answer_exists(&a.id));
}

#[test]
fn deleting_a_question_keeps_its_answers() {
    let mut store = Store::new(vec![(qid("1"), question("1", "first"))], vec![]);
    let a = store.create_answer(qid("1"), Content("kept".to_string())).unwrap();
    assert!(store.questions.delete_question(&qid("1")).is_ok());
    assert!(store.answers.answer_exists(&a.id));
}

#[test]
fn seeds_are_stored_last_one_winning() {
    let seed_answer = Answer {
        id: AnswerId::from_str("a1"),
        question_id: qid("1"),
        content: Content("seeded".to_string()),
    };
    let store = Store::new(
        vec![
            (qid("1"), question("1", "old")),
            (qid("2"), question("2", "two")),
            (qid("1"), question("1", "new")),
        ],
        vec![(AnswerId::from_str("a1"), seed_answer)],
    );
    assert_eq!(titles(&store.questions.list_questions()), vec!["new", "two"]);
    assert!(store.answers.answer_exists(&AnswerId::from_str("a1")));
    assert!(!store.answers.answer_exists(&AnswerId::from_str("a2")));
}

#[test]
fn answer_table_insert_replaces_same_id() {
    let mut t = AnswerTable::new();
    let mk = |c: &str| Answer {
        id: AnswerId::from_str("x"),
        question_id: qid("1"),
        content: Content(c.to_string()),
    };
    t.insert_answer(AnswerId::from_str("x"), mk("first"));
    t.insert_answer(AnswerId::from_str("x"), mk("second"));
    let all = t.list_answers();
    assert_eq!(all.len(), 1);
    assert_eq!(all[0].content.0, "second");
}

#[test]
fn tag_text_has_leading_hash() {
    assert_eq!(Tag::new("rust".to_string()).to_text(), "#rust");
}
