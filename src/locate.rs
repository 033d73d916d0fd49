use vstd::prelude::*;

use crate::catalog::{first_title_match, find_by_title, supported_grade, NcertBooks};
use crate::structs::{Book, BookError, Grade, Subject};
use crate::text::{lower_of, lowercase, push_char, push_text, spaces_to_underscores, underscore_spaces};

verus! {

/// The decimal digit `d` as a character.
pub open spec fn digit_char(d: u8) -> char {
    ((d + 48) as u8) as char
}

/// A chapter number in decimal, padded with a leading zero to at least two
/// digits.
pub open spec fn chapter_digits(ch: u8) -> Seq<char> {
    if ch < 100 {
        seq![digit_char(ch / 10), digit_char(ch % 10)]
    } else {
        seq![digit_char(ch / 100), digit_char((ch / 10) % 10), digit_char(ch % 10)]
    }
}

/// Where chapter `ch` of the book with code `code` is served.
pub open spec fn url_of(code: Seq<char>, ch: u8) -> Seq<char> {
    "https://ncert.nic.in/textbook/pdf/"@ + code + chapter_digits(ch) + ".pdf"@
}

/// The file name under which a chapter is stored, from the lowercased title.
pub open spec fn stored_name_of(lowered: Seq<char>, ch: u8) -> Seq<char> {
    spaces_to_underscores(lowered) + "-"@ + chapter_digits(ch) + ".pdf"@
}

/// The file name under which chapter `ch` of a book titled `title` is stored.
pub open spec fn file_name_of(title: Seq<char>, ch: u8) -> Seq<char> {
    stored_name_of(lower_of(title), ch)
}

/// Where one chapter of a book is fetched from, and the name it is stored under.
#[derive(Debug, Clone, PartialEq, Eq)]
pub struct DownloadTarget {
    pub url: String,
    pub file_name: String,
}

/// How a request for a chapter ended, as the transport reports it.
#[derive(Debug, Clone, PartialEq, Eq)]
pub enum Transfer {
    /// No response came (connection failure or timeout); carries the reason.
    Failed(String),
    /// A response came with this HTTP status and body.
    Received(u16, Vec<u8>),
}

/// Whether `e` reports a failed transfer from `url` with status `status`.
pub open spec fn is_network_error(e: BookError, url: Seq<char>, status: Option<u16>) -> bool {
    e is NetworkError && e->NetworkError_0@ == url && e->NetworkError_1 == status
}

fn push_digit(s: &mut String, d: u8)
    requires
        d < 10,
    ensures
        final(s)@ == old(s)@.push(digit_char(d)),
{
    push_char(s, (d + 48) as char);
}

/// Appends the chapter number, padded to at least two digits.
fn push_chapter(s: &mut String, ch: u8)
    ensures
        final(s)@ == old(s)@ + chapter_digits(ch),
{
    if ch >= 100 {
        push_digit(s, ch / 100);
        push_digit(s, (ch / 10) % 10);
    } else {
        push_digit(s, ch / 10);
    }
    push_digit(s, ch % 10);
    proof {
        assert(final(s)@ =~= old(s)@ + chapter_digits(ch));
    }
}

/// The chapter number as text, padded with a leading zero to at least two digits.
pub fn chapter_code(ch: u8) -> (r: String)
    ensures
        r@ == chapter_digits(ch),
{
    let mut s = String::new();
    push_chapter(&mut s, ch);
    proof {
        assert(s@ =~= chapter_digits(ch));
    }
    s
}

/// The address of chapter `ch` of the book whose code is `pdf_code`.
pub fn remote_url(pdf_code: &str, ch: u8) -> (r: String)
    ensures
        r@ == url_of(pdf_code@, ch),
{
    let mut s = String::new();
    push_text(&mut s, "https://ncert.nic.in/textbook/pdf/");
    push_text(&mut s, pdf_code);
    push_chapter(&mut s, ch);
    push_text(&mut s, ".pdf");
    proof {
        assert(s@ =~= url_of(pdf_code@, ch));
    }
    s
}

/// The stored file name of chapter `ch`, from the already lowercased title.
pub fn file_name_from_lowered(lowered: &str, ch: u8) -> (r: String)
    ensures
        r@ == stored_name_of(lowered@, ch),
{
    let mut s = underscore_spaces(lowered);
    push_text(&mut s, "-");
    push_chapter(&mut s, ch);
    push_text(&mut s, ".pdf");
    proof {
        assert(s@ =~= stored_name_of(lowered@, ch));
    }
    s
}

/// The stored file name of chapter `ch` of a book titled `title`: the title
/// lowercased with spaces as underscores, a hyphen, the chapter number in two
/// digits, and ".pdf".
pub fn file_name(title: &str, ch: u8) -> (r: String)
    ensures
        r@ == file_name_of(title@, ch),
{
    let lowered = lowercase(title);
    file_name_from_lowered(lowered.as_str(), ch)
}

/// Where chapter `ch` of `book` comes from and what it is stored as.
pub fn download_target(book: &Book, ch: u8) -> (r: DownloadTarget)
    ensures
        r.url@ == url_of(book.pdf_code@, ch),
        r.file_name@ == file_name_of(book.title@, ch),
{
    DownloadTarget { url: remote_url(book.pdf_code.as_str(), ch), file_name: file_name(book.title.as_str(), ch) }
}

/// The payload to store from a transfer from `url`: the body of a response
/// whose status is in 200..=299. Anything else is a `NetworkError`, carrying
/// the status when a response came.
pub fn accept_transfer(url: &str, t: Transfer) -> (r: Result<Vec<u8>, BookError>)
    ensures
        match t {
            Transfer::Failed(_) => r is Err && is_network_error(r->Err_0, url@, None),
            Transfer::Received(status, body) => if 200 <= status <= 299 {
                r == Ok::<Vec<u8>, BookError>(body)
            } else {
                r is Err && is_network_error(r->Err_0, url@, Some(status))
            },
        },
{
    match t {
        Transfer::Failed(reason) => Err(BookError::NetworkError(url.to_owned(), None, reason)),
        Transfer::Received(status, body) => {
            if 200 <= status && status <= 299 {
                Ok(body)
            } else {
                Err(BookError::NetworkError(url.to_owned(), Some(status), "unsuccessful HTTP status".to_owned()))
            }
        },
    }
}

impl NcertBooks {
    /// Resolves `subject`, `grade` and a title to one book and says where
    /// chapter `ch` of it comes from and what it is stored as. Nothing is
    /// fetched.
    ///
    /// Fails as [`NcertBooks::get_books`] and [`find_by_title`] do.
    pub fn plan_download(&self, subject: Subject, grade: Grade, title: &str, ch: u8) -> (r: Result<DownloadTarget, BookError>)
        ensures
            r is Ok <==> supported_grade(grade) && self.shelf(grade).contains_key(subject)
                && exists|i: int| first_title_match(self.shelf(grade)[subject].books@, title@, i),
            match r {
                Ok(t) => exists|i: int| {
                    let b = #[trigger] self.shelf(grade)[subject].books@[i];
                    &&& first_title_match(self.shelf(grade)[subject].books@, title@, i)
                    &&& t.url@ == url_of(b.pdf_code@, ch)
                    &&& t.file_name@ == file_name_of(b.title@, ch)
                },
                Err(e) => if !supported_grade(grade) {
                    e == BookError::UnsupportedGrade(grade)
                } else if !self.shelf(grade).contains_key(subject) {
                    e == BookError::BookNotFound(subject, grade)
                } else {
                    e is TitleNotFound && e->TitleNotFound_0@ == title@
                },
            },
    {
        let books = self.get_books(subject, grade)?;
        let book = find_by_title(books, title)?;
        Ok(download_target(book, ch))
    }
}

/// The address and the stored name of a chapter depend on nothing but the
/// book's code and title and the chapter number.
pub proof fn lemma_target_determined(b1: Book, b2: Book, ch1: u8, ch2: u8)
    requires
        b1.title@ == b2.title@,
        b1.pdf_code@ == b2.pdf_code@,
        ch1 == ch2,
    ensures
        url_of(b1.pdf_code@, ch1) == url_of(b2.pdf_code@, ch2),
        file_name_of(b1.title@, ch1) == file_name_of(b2.title@, ch2),
{
}

/// A chapter number below 100 is written as exactly two decimal digits, with
/// a leading zero below 10, both in the address and in the stored name, just
/// before ".pdf".
pub proof fn lemma_chapter_two_digits(code: Seq<char>, title: Seq<char>, ch: u8)
    requires
        ch < 100,
    ensures
        chapter_digits(ch).len() == 2,
        chapter_digits(ch)[0] == digit_char(ch / 10),
        chapter_digits(ch)[1] == digit_char(ch % 10),
        ch < 10 ==> chapter_digits(ch)[0] == '0',
        ({
            let u = url_of(code, ch);
            u.subrange(u.len() - 6, u.len() - 4) == chapter_digits(ch)
        }),
        ({
            let f = file_name_of(title, ch);
            f.subrange(f.len() - 6, f.len() - 4) == chapter_digits(ch)
        }),
{
    reveal_strlit(".pdf");
    let u = url_of(code, ch);
    let pre_u = "https://ncert.nic.in/textbook/pdf/"@ + code;
    assert(u == pre_u + chapter_digits(ch) + ".pdf"@);
    assert(u.subrange(u.len() - 6, u.len() - 4) =~= chapter_digits(ch));
    let f = file_name_of(title, ch);
    let pre_f = spaces_to_underscores(lower_of(title)) + "-"@;
    assert(f == pre_f + chapter_digits(ch) + ".pdf"@);
    assert(f.subrange(f.len() - 6, f.len() - 4) =~= chapter_digits(ch));
}

} // verus!
