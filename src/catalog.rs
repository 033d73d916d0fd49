use vstd::prelude::*;

use crate::shelf::{new_shelf, shelf_contents, shelf_get, shelf_insert, Shelf};
use crate::structs::{shelf_entry_valid, Book, BookError, Grade, Subject, SubjectBooks};
use crate::text::{lemma_strip_idempotent, lower_of, strip_separators_of, title_key, titles_match};

verus! {

/// The whole catalog: for each offered grade, the books of each subject.
///
/// A catalog is only built by [`NcertBooks::from_entries`], which checks every
/// entry, and is never changed afterwards.
#[derive(Debug, Clone)]
pub struct NcertBooks {
    ninth: Shelf,
    tenth: Shelf,
}

/// The grades that the catalog offers.
pub open spec fn supported_grade(g: Grade) -> bool {
    g == 9 || g == 10
}

/// Keys are pairwise distinct.
pub open spec fn keys_unique(es: Seq<(Subject, SubjectBooks)>) -> bool {
    forall|i: int, j: int| 0 <= i < j < es.len() ==> es[i].0 != es[j].0
}

/// A grade's entries can form a catalog: no subject twice, every entry usable.
pub open spec fn entries_valid(es: Seq<(Subject, SubjectBooks)>) -> bool {
    &&& keys_unique(es)
    &&& forall|i: int| 0 <= i < es.len() ==> shelf_entry_valid(#[trigger] es[i].1)
}

/// `m` maps exactly the subjects of `es`, each to its entry's books.
pub open spec fn shelf_matches(m: Map<Subject, SubjectBooks>, es: Seq<(Subject, SubjectBooks)>) -> bool {
    &&& forall|s: Subject| #[trigger] m.contains_key(s) <==> exists|i: int| 0 <= i < es.len() && es[i].0 == s
    &&& forall|i: int| 0 <= i < es.len() ==> m[#[trigger] es[i].0] == es[i].1
}

/// Whether `i` is the first position in `books` whose title matches `query`.
pub open spec fn first_title_match(books: Seq<Book>, query: Seq<char>, i: int) -> bool {
    &&& 0 <= i < books.len()
    &&& title_key(books[i].title@) == title_key(query)
    &&& forall|j: int| 0 <= j < i ==> title_key(#[trigger] books[j].title@) != title_key(query)
}

/// Whether every book of an entry has a non-empty title and code, and there is one.
fn entry_usable(sb: &SubjectBooks) -> (r: bool)
    ensures
        r == shelf_entry_valid(*sb),
{
    if sb.books.len() == 0 {
        return false;
    }
    let mut i: usize = 0;
    while i < sb.books.len()
        invariant
            0 <= i <= sb.books@.len(),
            forall|j: int| 0 <= j < i ==> crate::structs::book_valid(#[trigger] sb.books@[j]),
        decreases sb.books@.len() - i,
    {
        if sb.books[i].title.as_str().is_empty() || sb.books[i].pdf_code.as_str().is_empty() {
            return false;
        }
        i = i + 1;
    }
    true
}

/// Builds one grade's map from its entries, refusing an unusable entry or a
/// subject listed twice.
fn build_shelf(entries: Vec<(Subject, SubjectBooks)>) -> (r: Option<Shelf>)
    ensures
        r.is_some() == entries_valid(entries@),
        r.is_some() ==> shelf_matches(shelf_contents(r.unwrap()), entries@),
{
    let ghost es0 = entries@;
    let ghost n = entries@.len();
    let mut es = entries;
    let mut m = new_shelf();
    while es.len() > 0
        invariant
            n == es0.len(),
            es0 == entries@,
            es@.len() <= n,
            es@ == es0.subrange(0, es@.len() as int),
            forall|i: int| es@.len() <= i < n ==> shelf_entry_valid(#[trigger] es0[i].1),
            forall|i: int, j: int| es@.len() <= i < j < n ==> es0[i].0 != es0[j].0,
            shelf_matches(shelf_contents(m), es0.subrange(es@.len() as int, n as int)),
        decreases es@.len(),
    {
        let ghost k0 = es@.len() - 1;
        let (k, v) = es.pop().unwrap();
        assert(es0[k0] == (k, v));
        if !entry_usable(&v) {
            assert(!entries_valid(es0));
            return None;
        }
        let ghost before = shelf_contents(m);
        let ghost tail = es0.subrange(k0 + 1, n as int);
        if shelf_insert(&mut m, k, v).is_some() {
            proof {
                assert(before.contains_key(k));
                let i = choose|i: int| 0 <= i < tail.len() && tail[i].0 == k;
                assert(es0[k0 + 1 + i].0 == k);
                assert(!entries_valid(es0));
            }
            return None;
        }
        let ghost now = es0.subrange(k0, n as int);
        proof {
        assert forall|j: int| k0 < j < n implies es0[j].0 != k by {
            assert(tail[j - k0 - 1] == es0[j]);
            assert(before.contains_key(tail[j - k0 - 1].0));
        }
        assert forall|s: Subject| #[trigger] shelf_contents(m).contains_key(s) <==> exists|i: int|
            0 <= i < now.len() && now[i].0 == s by {
            if shelf_contents(m).contains_key(s) && s != k {
                let i = choose|i: int| 0 <= i < tail.len() && tail[i].0 == s;
                assert(now[i + 1].0 == s);
            }
            if s == k {
                assert(now[0].0 == s);
            }
            if exists|i: int| 0 <= i < now.len() && now[i].0 == s {
                let i = choose|i: int| 0 <= i < now.len() && now[i].0 == s;
                if i > 0 {
                    assert(tail[i - 1].0 == s);
                }
            }
        }
        assert forall|i: int| 0 <= i < now.len() implies shelf_contents(m)[#[trigger] now[i].0] == now[i].1 by {
            if i > 0 {
                assert(now[i] == tail[i - 1]);
                assert(before.contains_key(tail[i - 1].0));
            }
        }
        }
    }
    assert(es0.subrange(0, n as int) == es0);
    Some(m)
}

impl NcertBooks {
    /// What the catalog offers in grade `grade`, subject by subject (nothing
    /// for a grade it does not offer).
    pub closed spec fn shelf(&self, grade: Grade) -> Map<Subject, SubjectBooks> {
        if grade == 9 {
            shelf_contents(self.ninth)
        } else if grade == 10 {
            shelf_contents(self.tenth)
        } else {
            Map::empty()
        }
    }

    /// Every entry of the catalog lists at least one book, and every book has
    /// a non-empty title and code.
    pub open spec fn wf(&self) -> bool {
        forall|g: Grade, s: Subject| #[trigger] self.shelf(g).contains_key(s) ==> shelf_entry_valid(self.shelf(g)[s])
    }

    /// Builds the catalog from the entries of grade 9 and of grade 10.
    ///
    /// Fails with `ConfigError` when a subject stands twice in one grade, when
    /// an entry lists no book, or when a book has an empty title or code.
    pub fn from_entries(ninth: Vec<(Subject, SubjectBooks)>, tenth: Vec<(Subject, SubjectBooks)>) -> (r: Result<NcertBooks, BookError>)
        ensures
            r is Ok <==> entries_valid(ninth@) && entries_valid(tenth@),
            match r {
                Ok(c) => c.wf() && shelf_matches(c.shelf(9), ninth@) && shelf_matches(c.shelf(10), tenth@),
                Err(e) => e is ConfigError,
            },
    {
        let ghost n9 = ninth@;
        let ghost n10 = tenth@;
        let nm = match build_shelf(ninth) {
            Some(m) => m,
            None => return Err(BookError::ConfigError("grade 9 has an invalid or repeated subject entry".to_owned())),
        };
        let tm = match build_shelf(tenth) {
            Some(m) => m,
            None => return Err(BookError::ConfigError("grade 10 has an invalid or repeated subject entry".to_owned())),
        };
        let c = NcertBooks { ninth: nm, tenth: tm };
        proof {
            assert forall|g: Grade, s: Subject| #[trigger] c.shelf(g).contains_key(s) implies shelf_entry_valid(c.shelf(g)[s]) by {
                if g == 9 {
                    let i = choose|i: int| 0 <= i < n9.len() && n9[i].0 == s;
                    assert(shelf_entry_valid(n9[i].1));
                } else if g == 10 {
                    let i = choose|i: int| 0 <= i < n10.len() && n10[i].0 == s;
                    assert(shelf_entry_valid(n10[i].1));
                }
            }
        }
        Ok(c)
    }

    /// The books offered for `subject` in `grade`, in catalog order.
    ///
    /// Fails with `UnsupportedGrade` for a grade other than 9 or 10, and with
    /// `BookNotFound` when the grade lists nothing for the subject.
    pub fn get_books(&self, subject: Subject, grade: Grade) -> (r: Result<&[Book], BookError>)
        ensures
            match r {
                Ok(books) => supported_grade(grade) && self.shelf(grade).contains_key(subject)
                    && books@ == self.shelf(grade)[subject].books@,
                Err(e) => if !supported_grade(grade) {
                    e == BookError::UnsupportedGrade(grade)
                } else {
                    !self.shelf(grade).contains_key(subject) && e == BookError::BookNotFound(subject, grade)
                },
            },
    {
        let grade_map = if grade == 9 {
            &self.ninth
        } else if grade == 10 {
            &self.tenth
        } else {
            return Err(BookError::UnsupportedGrade(grade));
        };
        match shelf_get(grade_map, &subject) {
            Some(sb) => Ok(sb.books.as_slice()),
            None => Err(BookError::BookNotFound(subject, grade)),
        }
    }
}

/// The first book whose title equals `title` up to case and separators.
///
/// Fails with `TitleNotFound`, carrying the query, when no title matches.
pub fn find_by_title<'a>(books: &'a [Book], title: &str) -> (r: Result<&'a Book, BookError>)
    ensures
        match r {
            Ok(b) => exists|i: int| first_title_match(books@, title@, i) && *b == books@[i],
            Err(e) => e is TitleNotFound && e->TitleNotFound_0@ == title@,
        },
        r is Err <==> forall|i: int| 0 <= i < books@.len() ==> title_key(#[trigger] books@[i].title@) != title_key(title@),
{
    let mut i: usize = 0;
    while i < books.len()
        invariant
            0 <= i <= books@.len(),
            forall|j: int| 0 <= j < i ==> title_key(#[trigger] books@[j].title@) != title_key(title@),
        decreases books@.len() - i,
    {
        if titles_match(books[i].title.as_str(), title) {
            assert(first_title_match(books@, title@, i as int));
            return Ok(&books[i]);
        }
        i = i + 1;
    }
    Err(BookError::TitleNotFound(title.to_owned()))
}

/// In a well-formed catalog, every subject that a supported grade lists has
/// a non-empty list of books, each with a non-empty title and code; these are
/// the books that `get_books` returns for it.
pub proof fn lemma_offered_books_usable(c: NcertBooks, subject: Subject, grade: Grade)
    requires
        c.wf(),
        supported_grade(grade),
        c.shelf(grade).contains_key(subject),
    ensures
        c.shelf(grade)[subject].books@.len() > 0,
        forall|i: int| 0 <= i < c.shelf(grade)[subject].books@.len() ==> {
            let b = #[trigger] c.shelf(grade)[subject].books@[i];
            b.title@.len() > 0 && b.pdf_code@.len() > 0
        },
{
    assert(shelf_entry_valid(c.shelf(grade)[subject]));
}

/// Looking a title up by its normalized form finds the same book as looking
/// it up as given: the same position matches first, or none does. This holds
/// whenever lowercasing leaves the normalized form unchanged.
pub proof fn lemma_normalized_query_finds_same(books: Seq<Book>, x: Seq<char>)
    requires
        lower_of(title_key(x)) == title_key(x),
    ensures
        title_key(title_key(x)) == title_key(x),
        forall|i: int| #[trigger] first_title_match(books, title_key(x), i) == first_title_match(books, x, i),
{
    lemma_strip_idempotent(lower_of(x));
    assert(title_key(title_key(x)) == strip_separators_of(title_key(x)));
}

} // verus!
