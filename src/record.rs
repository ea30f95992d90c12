//! Building a book record from the texts that a page's elements hold: each
//! field in a fixed order, stopping at the first field that fails, so that a
//! record exists only when every field it carries was read.
use vstd::prelude::*;

use crate::fields::{
    chosen_candidate, decimal, price_digits, trimmed, valid_isbn_text, Author, Description, Isbn,
    Price, Title,
};
use crate::retry::FetchError;
use crate::source::Sites;
use crate::text::{
    join_texts, joined, remove_char, string_views, strip_prefix_char, without_char, without_prefix,
};

verus! {

/// The fields of a record, in the order they are read.
#[derive(Debug, Clone, Copy, PartialEq, Eq)]
pub enum Field {
    Authors,
    Title,
    Isbn,
    Description,
    Price,
}

#[derive(Debug, Clone, Copy, PartialEq, Eq)]
pub enum FieldError {
    /// No element of the page matched.
    Missing,
    /// An element matched, but its text is not a valid value.
    Invalid,
}

/// The texts of the page elements that each field's selector matched, in
/// document order. An optional field is `None` when the bookstore does not
/// offer it.
#[derive(Debug, Clone, PartialEq, Eq)]
pub struct PageTexts {
    pub authors: Vec<String>,
    pub title: Vec<String>,
    pub isbn: Vec<String>,
    pub description: Option<Vec<String>>,
    pub price: Option<Vec<String>>,
}

pub ghost struct PageTextsView {
    pub authors: Seq<Seq<char>>,
    pub title: Seq<Seq<char>>,
    pub isbn: Seq<Seq<char>>,
    pub description: Option<Seq<Seq<char>>>,
    pub price: Option<Seq<Seq<char>>>,
}

pub open spec fn opt_views(o: Option<Vec<String>>) -> Option<Seq<Seq<char>>> {
    match o {
        Some(v) => Some(string_views(v@)),
        None => None,
    }
}

impl View for PageTexts {
    type V = PageTextsView;

    open spec fn view(&self) -> PageTextsView {
        PageTextsView {
            authors: string_views(self.authors@),
            title: string_views(self.title@),
            isbn: string_views(self.isbn@),
            description: opt_views(self.description),
            price: opt_views(self.price),
        }
    }
}

/// Every author text, trimmed; missing when nothing matched.
pub open spec fn authors_outcome(t: Seq<Seq<char>>) -> Result<Seq<Seq<char>>, FieldError> {
    if t.len() == 0 {
        Err(FieldError::Missing)
    } else {
        Ok(t.map_values(|x: Seq<char>| trimmed(x)))
    }
}

/// The matched texts glued together, trimmed; on IgraSlov a leading `_` is
/// dropped first.
pub open spec fn title_outcome(site: Sites, t: Seq<Seq<char>>) -> Result<Seq<char>, FieldError> {
    if t.len() == 0 {
        Err(FieldError::Missing)
    } else {
        let whole = joined(t, Seq::empty());
        Ok(
            trimmed(
                if site == Sites::IgraSlov {
                    without_prefix(whole, '_')
                } else {
                    whole
                },
            ),
        )
    }
}

/// The ISBN extracted from the last matched text, no-break spaces removed.
pub open spec fn isbn_outcome(t: Seq<Seq<char>>) -> Result<Seq<char>, FieldError> {
    if t.len() == 0 {
        Err(FieldError::Missing)
    } else {
        match chosen_candidate(without_char(t.last(), '\u{a0}')) {
            Some(c) => if valid_isbn_text(c) {
                Ok(c)
            } else {
                Err(FieldError::Invalid)
            },
            None => Err(FieldError::Invalid),
        }
    }
}

/// The matched texts, one paragraph a line on Eksmo and glued on the
/// others, trimmed.
pub open spec fn description_outcome(site: Sites, t: Seq<Seq<char>>) -> Result<
    Seq<char>,
    FieldError,
> {
    if t.len() == 0 {
        Err(FieldError::Missing)
    } else if site == Sites::Eksmo {
        Ok(trimmed(joined(t, "\n"@)))
    } else {
        Ok(trimmed(joined(t, Seq::empty())))
    }
}

/// The price written by the last matched text.
pub open spec fn price_outcome(t: Seq<Seq<char>>) -> Result<u128, FieldError> {
    if t.len() == 0 {
        Err(FieldError::Missing)
    } else {
        match decimal(price_digits(t.last())) {
            Some(v) => Ok(v),
            None => Err(FieldError::Invalid),
        }
    }
}

pub open spec fn author_views(v: Seq<Author>) -> Seq<Seq<char>> {
    v.map_values(|a: Author| a.0@)
}

/// Reads the authors.
pub fn authors_from_texts(texts: &Vec<String>) -> (r: Result<Vec<Author>, FieldError>)
    ensures
        match (r, authors_outcome(string_views(texts@))) {
            (Ok(a), Ok(v)) => author_views(a@) == v,
            (Err(e), Err(f)) => e == f,
            _ => false,
        },
{
    if texts.len() == 0 {
        return Err(FieldError::Missing);
    }
    let ghost t = string_views(texts@);
    let mut out: Vec<Author> = Vec::new();
    let mut k: usize = 0;
    while k < texts.len()
        invariant
            t == string_views(texts@),
            k <= texts.len(),
            out@.len() == k,
            forall|j: int| 0 <= j < k ==> (#[trigger] out@[j]).0@ == trimmed(t[j]),
        decreases texts.len() - k,
    {
        let a = Author::new(texts[k].clone());
        out.push(a);
        k = k + 1;
    }
    proof {
        assert(author_views(out@) =~= t.map_values(|x: Seq<char>| trimmed(x)));
    }
    Ok(out)
}

/// Reads the title.
pub fn title_from_texts(site: Sites, texts: &Vec<String>) -> (r: Result<Title, FieldError>)
    ensures
        match (r, title_outcome(site, string_views(texts@))) {
            (Ok(a), Ok(v)) => a.0@ == v,
            (Err(e), Err(f)) => e == f,
            _ => false,
        },
{
    if texts.len() == 0 {
        return Err(FieldError::Missing);
    }
    let whole = join_texts(texts, "");
    proof {
        reveal_strlit("");
        assert(""@ =~= Seq::<char>::empty());
    }
    let title = match site {
        Sites::IgraSlov => Title::new(strip_prefix_char(whole.as_str(), '_').to_owned()),
        _ => Title::new(whole),
    };
    Ok(title)
}

/// Reads the ISBN.
pub fn isbn_from_texts(texts: &Vec<String>) -> (r: Result<Isbn, FieldError>)
    ensures
        match (r, isbn_outcome(string_views(texts@))) {
            (Ok(a), Ok(v)) => a@ == v,
            (Err(e), Err(f)) => e == f,
            _ => false,
        },
{
    if texts.len() == 0 {
        return Err(FieldError::Missing);
    }
    let last = texts[texts.len() - 1].as_str();
    match Isbn::extract(remove_char(last, '\u{a0}')) {
        Ok(isbn) => Ok(isbn),
        Err(_) => Err(FieldError::Invalid),
    }
}

/// Reads the description.
pub fn description_from_texts(site: Sites, texts: &Vec<String>) -> (r: Result<
    Description,
    FieldError,
>)
    ensures
        match (r, description_outcome(site, string_views(texts@))) {
            (Ok(a), Ok(v)) => a@ == v,
            (Err(e), Err(f)) => e == f,
            _ => false,
        },
{
    if texts.len() == 0 {
        return Err(FieldError::Missing);
    }
    proof {
        reveal_strlit("");
        assert(""@ =~= Seq::<char>::empty());
    }
    let whole = match site {
        Sites::Eksmo => join_texts(texts, "\n"),
        _ => join_texts(texts, ""),
    };
    Ok(Description::new(whole))
}

/// Reads the price.
pub fn price_from_texts(texts: &Vec<String>) -> (r: Result<Price, FieldError>)
    ensures
        match (r, price_outcome(string_views(texts@))) {
            (Ok(a), Ok(v)) => a.0 == v,
            (Err(e), Err(f)) => e == f,
            _ => false,
        },
{
    if texts.len() == 0 {
        return Err(FieldError::Missing);
    }
    let last = texts[texts.len() - 1].as_str();
    match Price::parse(last) {
        Ok(p) => Ok(p),
        Err(_) => Err(FieldError::Invalid),
    }
}

/// Why no record was built for a URL.
#[derive(Debug, Clone, Copy, PartialEq, Eq)]
pub enum BookError {
    /// The URL matched no known bookstore; nothing was fetched.
    UnknownSource,
    /// The bookstore's fetcher does not take this URL.
    RejectedUrl,
    /// The page could not be fetched.
    Fetch(FetchError),
    /// A field of the page failed.
    Field(Field, FieldError),
}

/// A URL for which no record was built, with the reason.
#[derive(Debug, Clone, PartialEq, Eq)]
pub struct RecordError {
    pub url: String,
    pub error: BookError,
}

/// A book record: every field it carries was read and validated.
#[derive(Debug, Clone, PartialEq, Eq)]
pub struct Book {
    pub site: Sites,
    pub source: String,
    pub authors: Vec<Author>,
    pub isbn: Isbn,
    pub title: Title,
    pub description: Option<Description>,
    pub price: Option<Price>,
}

pub ghost struct BookView {
    pub site: Sites,
    pub source: Seq<char>,
    pub authors: Seq<Seq<char>>,
    pub isbn: Seq<char>,
    pub title: Seq<char>,
    pub description: Option<Seq<char>>,
    pub price: Option<u128>,
}

impl View for Book {
    type V = BookView;

    open spec fn view(&self) -> BookView {
        BookView {
            site: self.site,
            source: self.source@,
            authors: author_views(self.authors@),
            isbn: self.isbn@,
            title: self.title.0@,
            description: match self.description {
                Some(d) => Some(d@),
                None => None,
            },
            price: match self.price {
                Some(p) => Some(p.0),
                None => None,
            },
        }
    }
}

/// The record of a page: authors, title and ISBN, then the description and
/// the price where the bookstore offers them; the first field that fails
/// decides the error.
pub open spec fn book_outcome(site: Sites, url: Seq<char>, p: PageTextsView) -> Result<
    BookView,
    BookError,
> {
    match authors_outcome(p.authors) {
        Err(e) => Err(BookError::Field(Field::Authors, e)),
        Ok(authors) => match title_outcome(site, p.title) {
            Err(e) => Err(BookError::Field(Field::Title, e)),
            Ok(title) => match isbn_outcome(p.isbn) {
                Err(e) => Err(BookError::Field(Field::Isbn, e)),
                Ok(isbn) => {
                    let description = match p.description {
                        None => Ok(None),
                        Some(t) => match description_outcome(site, t) {
                            Ok(d) => Ok(Some(d)),
                            Err(e) => Err(e),
                        },
                    };
                    match description {
                        Err(e) => Err(BookError::Field(Field::Description, e)),
                        Ok(description) => {
                            let price = match p.price {
                                None => Ok(None),
                                Some(t) => match price_outcome(t) {
                                    Ok(v) => Ok(Some(v)),
                                    Err(e) => Err(e),
                                },
                            };
                            match price {
                                Err(e) => Err(BookError::Field(Field::Price, e)),
                                Ok(price) => Ok(
                                    BookView {
                                        site,
                                        source: url,
                                        authors,
                                        isbn,
                                        title,
                                        description,
                                        price,
                                    },
                                ),
                            }
                        },
                    }
                },
            },
        },
    }
}

/// Builds the record of the page at `url` from its element texts.
pub fn build_book(site: Sites, url: String, page: &PageTexts) -> (r: Result<Book, BookError>)
    ensures
        match (r, book_outcome(site, url@, page@)) {
            (Ok(b), Ok(v)) => b@ == v,
            (Err(e), Err(f)) => e == f,
            _ => false,
        },
{
    let authors = match authors_from_texts(&page.authors) {
        Ok(a) => a,
        Err(e) => return Err(BookError::Field(Field::Authors, e)),
    };
    let title = match title_from_texts(site, &page.title) {
        Ok(t) => t,
        Err(e) => return Err(BookError::Field(Field::Title, e)),
    };
    let isbn = match isbn_from_texts(&page.isbn) {
        Ok(i) => i,
        Err(e) => return Err(BookError::Field(Field::Isbn, e)),
    };
    let description = match &page.description {
        None => None,
        Some(t) => match description_from_texts(site, t) {
            Ok(d) => Some(d),
            Err(e) => return Err(BookError::Field(Field::Description, e)),
        },
    };
    let price = match &page.price {
        None => None,
        Some(t) => match price_from_texts(t) {
            Ok(p) => Some(p),
            Err(e) => return Err(BookError::Field(Field::Price, e)),
        },
    };
    Ok(Book { site, source: url, authors, isbn, title, description, price })
}

} // verus!
