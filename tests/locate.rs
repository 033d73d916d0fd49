use study_planner::locate::{chapter_code, file_name_from_lowered};
use study_planner::text::{normalize, strip_separators, titles_match, underscore_spaces};
use study_planner::{
    accept_transfer, download_target, file_name, remote_url, Book, BookError, Cli, Commands, LogLevel,
    NcertBooks, Subject, SubjectBooks, Transfer,
};

fn science_catalog() -> NcertBooks {
    let science = SubjectBooks { books: vec![Book { title: "Science".to_string(), pdf_code: "jesc1".to_string() }] };
    let maths = SubjectBooks { books: vec![Book { title: "Mathematics".to_string(), pdf_code: "iemh1".to_string() }] };
    NcertBooks::from_entries(vec![(Subject::Science, science), (Subject::Math, maths)], vec![]).unwrap()
}

#[test]
fn science_chapter_one_target() {
    let c = science_catalog();
    let t = c.plan_download(Subject::Science, 9, "Science", 1).unwrap();
    assert_eq!(t.url, "https://ncert.nic.in/textbook/pdf/jesc101.pdf");
    assert_eq!(t.file_name, "science-01.pdf");
}

#[test]
fn unsupported_grade_plans_nothing() {
    let c = science_catalog();
    assert_eq!(c.plan_download(Subject::Science, 11, "Science", 1), Err(BookError::UnsupportedGrade(11)));
}

#[test]
fn unknown_title_plans_nothing() {
    let c = science_catalog();
    assert_eq!(
        c.plan_download(Subject::Math, 9, "does not exist", 1),
        Err(BookError::TitleNotFound("does not exist".to_string()))
    );
    assert_eq!(c.plan_download(Subject::Hindi, 9, "x", 1), Err(BookError::BookNotFound(Subject::Hindi, 9)));
}

#[test]
fn timed_out_transfer_is_network_error() {
    let url = "https://ncert.nic.in/textbook/pdf/jesc101.pdf";
    assert_eq!(
        accept_transfer(url, Transfer::Failed("operation timed out".to_string())),
        Err(BookError::NetworkError(url.to_string(), None, "operation timed out".to_string()))
    );
}

#[test]
fn unsuccessful_status_is_network_error() {
    let url = "https://ncert.nic.in/textbook/pdf/x01.pdf";
    for status in [100u16, 199, 301, 404, 500] {
        match accept_transfer(url, Transfer::Received(status, vec![1, 2])) {
            Err(BookError::NetworkError(u, s, _)) => {
                assert_eq!(u, url);
                assert_eq!(s, Some(status));
            }
            other => panic!("unexpected {:?}", other),
        }
    }
}

#[test]
fn successful_status_gives_body() {
    for status in [200u16, 204, 299] {
        assert_eq!(accept_transfer("u", Transfer::Received(status, vec![7, 8, 9])), Ok(vec![7, 8, 9]));
    }
}

#[test]
fn targets_are_deterministic() {
    let b = Book { title: "Science".to_string(), pdf_code: "jesc1".to_string() };
    assert_eq!(download_target(&b, 4), download_target(&b.clone(), 4));
    assert_eq!(remote_url("jesc1", 4), remote_url("jesc1", 4));
    assert_eq!(file_name("Science", 4), file_name("Science", 4));
}

#[test]
fn chapters_use_two_digits() {
    assert_eq!(chapter_code(0), "00");
    assert_eq!(chapter_code(3), "03");
    assert_eq!(chapter_code(12), "12");
    assert_eq!(chapter_code(99), "99");
    assert_eq!(chapter_code(100), "100");
    assert_eq!(chapter_code(255), "255");
    assert_eq!(remote_url("jesc1", 3), "https://ncert.nic.in/textbook/pdf/jesc103.pdf");
    assert_eq!(remote_url("jesc1", 12), "https://ncert.nic.in/textbook/pdf/jesc112.pdf");
    assert_eq!(file_name("Science", 3), "science-03.pdf");
    assert_eq!(file_name("Science", 12), "science-12.pdf");
}

#[test]
fn file_name_lowercases_and_underscores() {
    assert_eq!(file_name("Science Part One", 7), "science_part_one-07.pdf");
    assert_eq!(file_name_from_lowered("a b-c", 1), "a_b-c-01.pdf");
    assert_eq!(underscore_spaces(" x  y "), "_x__y_");
}

#[test]
fn normalization_lowercases_and_strips() {
    assert_eq!(normalize("Hello World-x_Y"), "helloworldxy");
    assert_eq!(normalize(""), "");
    assert_eq!(strip_separators("a -_b"), "ab");
    assert!(titles_match("First Flight", "first-flight"));
    assert!(!titles_match("First Flight", "first flights"));
}

#[test]
fn log_level_follows_flags() {
    let cmd = Commands::List { subject: None, grade: None };
    let cli = |silent, debug| Cli { command: cmd.clone(), silent, debug };
    assert_eq!(cli(false, false).log_level(), LogLevel::Info);
    assert_eq!(cli(true, false).log_level(), LogLevel::Error);
    assert_eq!(cli(true, true).log_level(), LogLevel::Debug);
    assert_eq!(cli(false, true).log_level(), LogLevel::Debug);
}
