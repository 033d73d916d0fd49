use vstd::prelude::*;

use crate::text::same_text;

verus! {

/// The subjects for which the catalog offers books.
#[derive(Debug, Clone, Copy, PartialEq, Eq, Structural, Hash, Default)]
pub enum Subject {
    #[default]
    Math,
    Science,
    English,
    History,
    Geography,
    Politics,
    Hindi,
    Sanskrit,
    SocialScience,
    EnvironmentalEducation,
    HealthAndPhysicalEducation,
}

/// The label under which a subject is written in the catalog payload.
pub open spec fn subject_label(s: Subject) -> Seq<char> {
    match s {
        Subject::Math => "Mathematics"@,
        Subject::Science => "Science"@,
        Subject::English => "English"@,
        Subject::History => "History"@,
        Subject::Geography => "Geography"@,
        Subject::Politics => "Politics"@,
        Subject::Hindi => "Hindi"@,
        Subject::Sanskrit => "Sanskrit"@,
        Subject::SocialScience => "SocialScience"@,
        Subject::EnvironmentalEducation => "EnvironmentalEducation"@,
        Subject::HealthAndPhysicalEducation => "HealthAndPhysicalEducation"@,
    }
}

/// A grade level; the catalog offers grades 9 and 10.
pub type Grade = u8;

/// One book of the catalog: its display title and the code that names its
/// chapters on the remote host.
#[derive(Debug, Clone, PartialEq, Eq, Default)]
pub struct Book {
    pub title: String,
    pub pdf_code: String,
}

/// The books offered for one subject in one grade, in catalog order.
#[derive(Debug, Clone, PartialEq, Eq, Default)]
pub struct SubjectBooks {
    pub books: Vec<Book>,
}

/// A book is usable when both its title and its code are non-empty.
pub open spec fn book_valid(b: Book) -> bool {
    b.title@.len() > 0 && b.pdf_code@.len() > 0
}

/// A subject's entry is usable when it lists at least one book and every
/// book in it is usable.
pub open spec fn shelf_entry_valid(sb: SubjectBooks) -> bool {
    sb.books@.len() > 0 && forall|i: int| 0 <= i < sb.books@.len() ==> book_valid(#[trigger] sb.books@[i])
}

/// What can go wrong while resolving, fetching or storing a book.
#[derive(Debug, Clone, PartialEq, Eq)]
pub enum BookError {
    /// The catalog payload is malformed; carries a description.
    ConfigError(String),
    /// The grade is not one the catalog offers.
    UnsupportedGrade(Grade),
    /// The catalog has no books for this subject in this grade.
    BookNotFound(Subject, Grade),
    /// No book's title matches the query, which is carried.
    TitleNotFound(String),
    /// The transfer from this URL failed: the HTTP status if a response
    /// came, and the reason.
    NetworkError(String, Option<u16>, String),
    /// Writing to this path failed, for the reason carried.
    IOError(String, String),
}

impl Subject {
    /// The external label of this subject (`Math` is written "Mathematics").
    pub fn label(self) -> (r: &'static str)
        ensures
            r@ == subject_label(self),
    {
        match self {
            Subject::Math => "Mathematics",
            Subject::Science => "Science",
            Subject::English => "English",
            Subject::History => "History",
            Subject::Geography => "Geography",
            Subject::Politics => "Politics",
            Subject::Hindi => "Hindi",
            Subject::Sanskrit => "Sanskrit",
            Subject::SocialScience => "SocialScience",
            Subject::EnvironmentalEducation => "EnvironmentalEducation",
            Subject::HealthAndPhysicalEducation => "HealthAndPhysicalEducation",
        }
    }

    /// The subject whose external label is `s`, if any.
    pub fn from_label(s: &str) -> (r: Option<Subject>)
        ensures
            match r {
                Some(x) => s@ == subject_label(x),
                None => forall|x: Subject| s@ != #[trigger] subject_label(x),
            },
    {
        let all = Subject::all();
        let mut i: usize = 0;
        while i < all.len()
            invariant
                all@ == all_subjects(),
                0 <= i <= all@.len(),
                forall|j: int| 0 <= j < i ==> s@ != subject_label(#[trigger] all@[j]),
            decreases all@.len() - i,
        {
            if same_text(all[i].label(), s) {
                return Some(all[i]);
            }
            i = i + 1;
        }
        proof {
            assert forall|x: Subject| s@ != #[trigger] subject_label(x) by {
                lemma_all_subjects_complete(x);
            }
        }
        None
    }

    /// Every subject, once each, in declaration order.
    pub fn all() -> (r: Vec<Subject>)
        ensures
            r@ == all_subjects(),
    {
        vec![
            Subject::Math,
            Subject::Science,
            Subject::English,
            Subject::History,
            Subject::Geography,
            Subject::Politics,
            Subject::Hindi,
            Subject::Sanskrit,
            Subject::SocialScience,
            Subject::EnvironmentalEducation,
            Subject::HealthAndPhysicalEducation,
        ]
    }
}

/// The subjects in declaration order.
pub open spec fn all_subjects() -> Seq<Subject> {
    seq![
        Subject::Math,
        Subject::Science,
        Subject::English,
        Subject::History,
        Subject::Geography,
        Subject::Politics,
        Subject::Hindi,
        Subject::Sanskrit,
        Subject::SocialScience,
        Subject::EnvironmentalEducation,
        Subject::HealthAndPhysicalEducation,
    ]
}

/// Every subject stands in `all_subjects`.
pub proof fn lemma_all_subjects_complete(x: Subject)
    ensures
        all_subjects().contains(x),
{
    let a = all_subjects();
    match x {
        Subject::Math => assert(a[0] == x),
        Subject::Science => assert(a[1] == x),
        Subject::English => assert(a[2] == x),
        Subject::History => assert(a[3] == x),
        Subject::Geography => assert(a[4] == x),
        Subject::Politics => assert(a[5] == x),
        Subject::Hindi => assert(a[6] == x),
        Subject::Sanskrit => assert(a[7] == x),
        Subject::SocialScience => assert(a[8] == x),
        Subject::EnvironmentalEducation => assert(a[9] == x),
        Subject::HealthAndPhysicalEducation => assert(a[10] == x),
    }
}

} // verus!
