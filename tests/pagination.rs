use qa_store::error::Error;
use qa_store::pagination::{extract_pagination, Pagination};
use qa_store::question::{Content, Question, QuestionId, Title};
use qa_store::routes::get_questions;
use qa_store::store::QuestionTable;

fn table_of(n: usize) -> QuestionTable {
    let mut t = QuestionTable::new();
    for i in 0..n {
        t.create_question(Question::new(
            QuestionId::from_str(&i.to_string()).unwrap(),
            Title::new(format!("t{}", i)),
            Content(String::new()),
            None,
        ));
    }
    t
}

fn ids(qs: &[Question]) -> Vec<String> {
    qs.iter().map(|q| q.id.as_str().to_string()).collect()
}

#[test]
fn start_past_end_gives_empty_range() {
    let p = Pagination { start: 5, end: 3 }.clamp_to(10);
    assert_eq!((p.start, p.end), (3, 3));
    let r = get_questions(&table_of(10), Some("5"), Some("3")).unwrap();
    assert!(r.is_empty());
}

#[test]
fn end_past_length_is_clamped() {
    let p = Pagination { start: 2, end: 100 }.clamp_to(10);
    assert_eq!((p.start, p.end), (2, 10));
    let r = get_questions(&table_of(10), Some("2"), Some("100")).unwrap();
    assert_eq!(ids(&r), vec!["2", "3", "4", "5", "6", "7", "8", "9"]);
}

#[test]
fn start_alone_is_missing_end() {
    let r = extract_pagination(Some("1"), None);
    assert!(matches!(r, Err(Error::MissingParameter(ref p)) if p == "end"));
    let r = get_questions(&table_of(3), Some("1"), None);
    assert!(matches!(r, Err(Error::MissingParameter(ref p)) if p == "end"));
}

#[test]
fn end_alone_is_missing_start() {
    let r = get_questions(&table_of(3), None, Some("1"));
    assert!(matches!(r, Err(Error::MissingParameter(ref p)) if p == "start"));
}

#[test]
fn non_numeric_start_is_parse_error() {
    let r = extract_pagination(Some("x"), Some("3"));
    assert!(matches!(r, Err(Error::ParseError(_))));
    let r = get_questions(&table_of(3), Some("x"), Some("3"));
    assert!(matches!(r, Err(Error::ParseError(_))));
}

#[test]
fn non_numeric_end_is_parse_error() {
    assert!(matches!(extract_pagination(Some("1"), Some("-3")), Err(Error::ParseError(_))));
    assert!(matches!(extract_pagination(Some("1"), Some("")), Err(Error::ParseError(_))));
    assert!(matches!(
        extract_pagination(Some("0"), Some("99999999999999999999999")),
        Err(Error::ParseError(_))
    ));
}

#[test]
fn numbers_are_read_in_full() {
    let p = extract_pagination(Some("+7"), Some("012")).unwrap();
    assert_eq!((p.start, p.end), (7, 12));
}

#[test]
fn listing_without_parameters_returns_all_in_stable_order() {
    let t = table_of(4);
    let first = get_questions(&t, None, None).unwrap();
    let second = get_questions(&t, None, None).unwrap();
    assert_eq!(ids(&first), vec!["0", "1", "2", "3"]);
    assert_eq!(ids(&first), ids(&second));
}

#[test]
fn listing_of_empty_table_is_empty() {
    let t = table_of(0);
    assert!(get_questions(&t, None, None).unwrap().is_empty());
    assert!(get_questions(&t, Some("0"), Some("5")).unwrap().is_empty());
}
