use study_planner::catalog::find_by_title;
use study_planner::{Book, BookError, NcertBooks, Subject, SubjectBooks};

fn book(title: &str, code: &str) -> Book {
    Book { title: title.to_string(), pdf_code: code.to_string() }
}

fn shelf(books: Vec<Book>) -> SubjectBooks {
    SubjectBooks { books }
}

fn sample() -> NcertBooks {
    let ninth = vec![
        (Subject::Science, shelf(vec![book("Science", "jesc1")])),
        (Subject::Math, shelf(vec![book("Mathematics", "iemh1")])),
        (
            Subject::English,
            shelf(vec![book("Beehive", "iebe1"), book("Moments", "iemo1")]),
        ),
    ];
    let tenth = vec![(Subject::Math, shelf(vec![book("Mathematics", "jemh1")]))];
    NcertBooks::from_entries(ninth, tenth).unwrap()
}

#[test]
fn unsupported_grades_are_reported() {
    let c = sample();
    for g in [0u8, 1, 8, 11, 12, 255] {
        assert_eq!(c.get_books(Subject::Math, g), Err(BookError::UnsupportedGrade(g)));
    }
}

#[test]
fn present_pairs_give_usable_books() {
    let c = sample();
    for (s, g) in [(Subject::Science, 9u8), (Subject::Math, 9), (Subject::English, 9), (Subject::Math, 10)] {
        let books = c.get_books(s, g).unwrap();
        assert!(!books.is_empty());
        for b in books {
            assert!(!b.title.is_empty());
            assert!(!b.pdf_code.is_empty());
        }
    }
    let english = c.get_books(Subject::English, 9).unwrap();
    assert_eq!(english, &[book("Beehive", "iebe1"), book("Moments", "iemo1")][..]);
}

#[test]
fn absent_pairs_name_subject_and_grade() {
    let c = sample();
    assert_eq!(c.get_books(Subject::Science, 10), Err(BookError::BookNotFound(Subject::Science, 10)));
    assert_eq!(c.get_books(Subject::Hindi, 9), Err(BookError::BookNotFound(Subject::Hindi, 9)));
}

#[test]
fn title_lookup_ignores_case_and_separators() {
    let c = sample();
    let books = c.get_books(Subject::English, 9).unwrap();
    assert_eq!(find_by_title(books, "moments"), Ok(&books[1]));
    assert_eq!(find_by_title(books, "BEE-hive"), Ok(&books[0]));
    assert_eq!(find_by_title(books, "bee_ hive"), Ok(&books[0]));
}

#[test]
fn normalized_query_finds_the_same_book() {
    let c = sample();
    let books = c.get_books(Subject::English, 9).unwrap();
    for q in ["Bee Hive", "MOMENTS", "mo-ments", "nothing here"] {
        let n = study_planner::text::normalize(q);
        assert_eq!(find_by_title(books, &n).ok(), find_by_title(books, q).ok());
    }
}

#[test]
fn first_of_equal_titles_wins() {
    let books = vec![book("Science", "a"), book("SCIENCE", "b")];
    assert_eq!(find_by_title(&books, "science").unwrap().pdf_code, "a");
}

#[test]
fn unknown_title_is_reported_with_query() {
    let c = sample();
    let books = c.get_books(Subject::Math, 9).unwrap();
    assert_eq!(
        find_by_title(books, "does not exist"),
        Err(BookError::TitleNotFound("does not exist".to_string()))
    );
    assert_eq!(find_by_title(&[], "x"), Err(BookError::TitleNotFound("x".to_string())));
}

#[test]
fn repeated_subject_is_a_config_error() {
    let ninth = vec![
        (Subject::Math, shelf(vec![book("A", "a")])),
        (Subject::Math, shelf(vec![book("B", "b")])),
    ];
    assert!(matches!(NcertBooks::from_entries(ninth, vec![]), Err(BookError::ConfigError(_))));
}

#[test]
fn empty_entry_or_field_is_a_config_error() {
    let empty_list = vec![(Subject::Math, shelf(vec![]))];
    assert!(matches!(NcertBooks::from_entries(vec![], empty_list), Err(BookError::ConfigError(_))));
    let empty_title = vec![(Subject::Math, shelf(vec![book("", "a")]))];
    assert!(matches!(NcertBooks::from_entries(empty_title, vec![]), Err(BookError::ConfigError(_))));
    let empty_code = vec![(Subject::Math, shelf(vec![book("A", "")]))];
    assert!(matches!(NcertBooks::from_entries(vec![], empty_code), Err(BookError::ConfigError(_))));
}

#[test]
fn empty_catalog_offers_nothing() {
    let c = NcertBooks::from_entries(vec![], vec![]).unwrap();
    assert_eq!(c.get_books(Subject::Math, 9), Err(BookError::BookNotFound(Subject::Math, 9)));
}

#[test]
fn subject_labels_round_trip() {
    assert_eq!(Subject::Math.label(), "Mathematics");
    assert_eq!(Subject::SocialScience.label(), "SocialScience");
    for s in Subject::all() {
        assert_eq!(Subject::from_label(s.label()), Some(s));
    }
    assert_eq!(Subject::all().len(), 11);
    assert_eq!(Subject::from_label("Math"), None);
    assert_eq!(Subject::from_label(""), None);
}
