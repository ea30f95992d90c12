//! Reading the fields of a bookstore page. Each bookstore has a set of CSS
//! selectors, compiled once and then shared read-only; a page is parsed, the
//! text of each matching element is collected, and the record is built from
//! those texts.
use vstd::prelude::*;

use crate::dom::{
    compile_selector, parse_page, select_texts, selected_texts, selector_parses,
    CompiledSelector, ParsedPage,
};
use crate::fields::{Author, Description, Isbn, Price, Title};
use crate::record::{
    opt_views,
    author_views, authors_from_texts, authors_outcome, book_outcome, build_book,
    description_from_texts, description_outcome, isbn_from_texts, isbn_outcome, price_from_texts,
    price_outcome, title_from_texts, title_outcome, Book, BookError, BookView, FieldError,
    PageTexts, PageTextsView, RecordError,
};
use crate::source::Sites;

verus! {

/// The selector texts of one bookstore. A field whose selector is `None` is
/// not offered by that bookstore.
#[derive(Debug, Clone, Copy, PartialEq, Eq)]
pub struct SelectorSet {
    pub authors: &'static str,
    pub title: &'static str,
    pub isbn: &'static str,
    pub description: Option<&'static str>,
    pub price: Option<&'static str>,
}

pub open spec fn opt_parses(css: Option<&'static str>) -> bool {
    match css {
        Some(c) => selector_parses(c@),
        None => true,
    }
}

pub open spec fn all_parse(set: SelectorSet) -> bool {
    &&& selector_parses(set.authors@)
    &&& selector_parses(set.title@)
    &&& selector_parses(set.isbn@)
    &&& opt_parses(set.description)
    &&& opt_parses(set.price)
}

/// The selectors of each bookstore's book page.
pub open spec fn site_selectors(site: Sites) -> SelectorSet {
    match site {
        Sites::Labirint => SelectorSet {
            authors: "._left_u86in_12 > div:nth-child(1) > div:nth-child(2)",
            title: "._h1_5o36c_18",
            isbn: "._right_u86in_12 > div:nth-child(2) > div:nth-child(2)",
            description: None,
            price: None,
        },
        Sites::IgraSlov => SelectorSet {
            authors: "tr.woocommerce-product-attributes-item:nth-child(1) > td:nth-child(2) > p:nth-child(1) > a:nth-child(1)",
            title: ".single-post-title",
            isbn: "tr.woocommerce-product-attributes-item--attribute_pa_isbn-issn-1 td p",
            description: Some(".woocommerce-product-details__short-description > p:nth-child(1)"),
            price: Some("p.price > span:nth-child(1) > bdi:nth-child(1)"),
        },
        Sites::Eksmo => SelectorSet {
            authors: ".book-page__card-author-link",
            title: ".book-page__card-title",
            isbn: "span.copy__val",
            description: Some(
                "div.spoiler__text.t.t_last-p-no-offset.book-page__card-description-text p",
            ),
            price: None,
        },
    }
}

pub fn selectors(site: Sites) -> (r: SelectorSet)
    ensures
        r == site_selectors(site),
{
    match site {
        Sites::Labirint => SelectorSet {
            authors: "._left_u86in_12 > div:nth-child(1) > div:nth-child(2)",
            title: "._h1_5o36c_18",
            isbn: "._right_u86in_12 > div:nth-child(2) > div:nth-child(2)",
            description: None,
            price: None,
        },
        Sites::IgraSlov => SelectorSet {
            authors: "tr.woocommerce-product-attributes-item:nth-child(1) > td:nth-child(2) > p:nth-child(1) > a:nth-child(1)",
            title: ".single-post-title",
            isbn: "tr.woocommerce-product-attributes-item--attribute_pa_isbn-issn-1 td p",
            description: Some(".woocommerce-product-details__short-description > p:nth-child(1)"),
            price: Some("p.price > span:nth-child(1) > bdi:nth-child(1)"),
        },
        Sites::Eksmo => SelectorSet {
            authors: ".book-page__card-author-link",
            title: ".book-page__card-title",
            isbn: "span.copy__val",
            description: Some(
                "div.spoiler__text.t.t_last-p-no-offset.book-page__card-description-text p",
            ),
            price: None,
        },
    }
}

fn compile_optional(css: Option<&'static str>) -> (r: Option<Option<CompiledSelector>>)
    ensures
        r is Some <==> opt_parses(css),
        r matches Some(o) ==> compiled_from(o, css),
{
    match css {
        None => Some(None),
        Some(c) => match compile_selector(c) {
            Some(s) => Some(Some(s)),
            None => None,
        },
    }
}

/// `c` was compiled from `css`, or both are absent.
pub open spec fn compiled_from(c: Option<CompiledSelector>, css: Option<&'static str>) -> bool {
    match (c, css) {
        (Some(c), Some(t)) => c@ == t@,
        (None, None) => true,
        _ => false,
    }
}

pub open spec fn opt_selected(body: Seq<char>, css: Option<&'static str>) -> Option<
    Seq<Seq<char>>,
> {
    match css {
        Some(c) => Some(selected_texts(body, c@)),
        None => None,
    }
}

/// The texts that each selector of `set` matches in the page `body`.
pub open spec fn page_texts(set: SelectorSet, body: Seq<char>) -> PageTextsView {
    PageTextsView {
        authors: selected_texts(body, set.authors@),
        title: selected_texts(body, set.title@),
        isbn: selected_texts(body, set.isbn@),
        description: opt_selected(body, set.description),
        price: opt_selected(body, set.price),
    }
}

/// The compiled selectors of one bookstore, built once and shared read-only
/// by every task.
pub struct Extractor {
    site: Sites,
    set: SelectorSet,
    authors: CompiledSelector,
    title: CompiledSelector,
    isbn: CompiledSelector,
    description: Option<CompiledSelector>,
    price: Option<CompiledSelector>,
}

impl Extractor {
    /// Each compiled selector comes from the text of `set` that it stands for.
    #[verifier::type_invariant]
    spec fn inv(&self) -> bool {
        &&& self.authors@ == self.set.authors@
        &&& self.title@ == self.set.title@
        &&& self.isbn@ == self.set.isbn@
        &&& compiled_from(self.description, self.set.description)
        &&& compiled_from(self.price, self.set.price)
    }

    pub closed spec fn spec_site(&self) -> Sites {
        self.site
    }

    /// The selector texts this extractor was compiled from.
    pub closed spec fn spec_set(&self) -> SelectorSet {
        self.set
    }

    /// Compiles `set` for `site`; `None` when one of its selectors does not
    /// parse.
    pub fn new(site: Sites, set: SelectorSet) -> (r: Option<Extractor>)
        ensures
            r is Some <==> all_parse(set),
            r matches Some(e) ==> e.spec_site() == site && e.spec_set() == set,
    {
        let authors = match compile_selector(set.authors) {
            Some(s) => s,
            None => return None,
        };
        let title = match compile_selector(set.title) {
            Some(s) => s,
            None => return None,
        };
        let isbn = match compile_selector(set.isbn) {
            Some(s) => s,
            None => return None,
        };
        let description = match compile_optional(set.description) {
            Some(o) => o,
            None => return None,
        };
        let price = match compile_optional(set.price) {
            Some(o) => o,
            None => return None,
        };
        Some(Extractor { site, set, authors, title, isbn, description, price })
    }

    /// The extractor of `site`, with that bookstore's selectors.
    pub fn for_site(site: Sites) -> (r: Option<Extractor>)
        ensures
            r is Some <==> all_parse(site_selectors(site)),
            r matches Some(e) ==> e.spec_site() == site && e.spec_set() == site_selectors(site),
    {
        Extractor::new(site, selectors(site))
    }

    pub fn site(&self) -> (r: Sites)
        ensures
            r == self.spec_site(),
    {
        self.site
    }

    /// Reads the authors of the page `body`.
    pub fn parse_authors(&self, body: &str) -> (r: Result<Vec<Author>, FieldError>)
        ensures
            match (r, authors_outcome(selected_texts(body@, self.spec_set().authors@))) {
                (Ok(a), Ok(v)) => author_views(a@) == v,
                (Err(e), Err(f)) => e == f,
                _ => false,
            },
    {
        proof {
            use_type_invariant(self);
        }
        let page = parse_page(body);
        let texts = select_texts(&page, &self.authors);
        authors_from_texts(&texts)
    }

    /// Reads the title of the page `body`.
    pub fn parse_title(&self, body: &str) -> (r: Result<Title, FieldError>)
        ensures
            match (
                r,
                title_outcome(self.spec_site(), selected_texts(body@, self.spec_set().title@)),
            ) {
                (Ok(a), Ok(v)) => a.0@ == v,
                (Err(e), Err(f)) => e == f,
                _ => false,
            },
    {
        proof {
            use_type_invariant(self);
        }
        let page = parse_page(body);
        let texts = select_texts(&page, &self.title);
        title_from_texts(self.site, &texts)
    }

    /// Reads the ISBN of the page `body`.
    pub fn parse_isbn(&self, body: &str) -> (r: Result<Isbn, FieldError>)
        ensures
            match (r, isbn_outcome(selected_texts(body@, self.spec_set().isbn@))) {
                (Ok(a), Ok(v)) => a@ == v,
                (Err(e), Err(f)) => e == f,
                _ => false,
            },
    {
        proof {
            use_type_invariant(self);
        }
        let page = parse_page(body);
        let texts = select_texts(&page, &self.isbn);
        isbn_from_texts(&texts)
    }

    /// Reads the description of the page `body`; missing where the bookstore
    /// offers none.
    pub fn parse_description(&self, body: &str) -> (r: Result<Description, FieldError>)
        ensures
            match self.spec_set().description {
                None => r == Err::<Description, FieldError>(FieldError::Missing),
                Some(css) => match (
                    r,
                    description_outcome(self.spec_site(), selected_texts(body@, css@)),
                ) {
                    (Ok(a), Ok(v)) => a@ == v,
                    (Err(e), Err(f)) => e == f,
                    _ => false,
                },
            },
    {
        proof {
            use_type_invariant(self);
        }
        match &self.description {
            Some(s) => {
                let page = parse_page(body);
                let texts = select_texts(&page, s);
                description_from_texts(self.site, &texts)
            },
            None => Err(FieldError::Missing),
        }
    }

    /// Reads the price of the page `body`; missing where the bookstore offers
    /// none.
    pub fn parse_price(&self, body: &str) -> (r: Result<Price, FieldError>)
        ensures
            match self.spec_set().price {
                None => r == Err::<Price, FieldError>(FieldError::Missing),
                Some(css) => match (r, price_outcome(selected_texts(body@, css@))) {
                    (Ok(a), Ok(v)) => a.0 == v,
                    (Err(e), Err(f)) => e == f,
                    _ => false,
                },
            },
    {
        proof {
            use_type_invariant(self);
        }
        match &self.price {
            Some(s) => {
                let page = parse_page(body);
                let texts = select_texts(&page, s);
                price_from_texts(&texts)
            },
            None => Err(FieldError::Missing),
        }
    }

    fn select_optional(&self, page: &ParsedPage, sel: &Option<CompiledSelector>, css: Option<
        &'static str,
    >) -> (r: Option<Vec<String>>)
        requires
            compiled_from(*sel, css),
        ensures
            opt_views(r) == opt_selected(page@, css),
    {
        match sel {
            Some(s) => Some(select_texts(page, s)),
            None => None,
        }
    }

    /// Parses the page `body` and collects the texts that each selector
    /// matches.
    pub fn read_page(&self, body: &str) -> (r: PageTexts)
        ensures
            r@ == page_texts(self.spec_set(), body@),
    {
        proof {
            use_type_invariant(self);
        }
        let page = parse_page(body);
        let description = self.select_optional(&page, &self.description, self.set.description);
        let price = self.select_optional(&page, &self.price, self.set.price);
        PageTexts {
            authors: select_texts(&page, &self.authors),
            title: select_texts(&page, &self.title),
            isbn: select_texts(&page, &self.isbn),
            description,
            price,
        }
    }

    /// Builds the record of the page `body` fetched from `url`: the record
    /// that the texts its selectors match give, or the error of the first
    /// field that fails, with the URL.
    pub fn parse_book(&self, url: String, body: &str) -> (r: Result<Book, RecordError>)
        ensures
            record_matches(r, url@, book_outcome(self.spec_site(), url@, page_texts(self.spec_set(), body@))),
    {
        let page = self.read_page(body);
        let source = url.clone();
        match build_book(self.site, url, &page) {
            Ok(b) => Ok(b),
            Err(error) => Err(RecordError { url: source, error }),
        }
    }
}

/// `r` is the outcome `o` for the page at `url`; an error carries the URL.
pub open spec fn record_matches(
    r: Result<Book, RecordError>,
    url: Seq<char>,
    o: Result<BookView, BookError>,
) -> bool {
    match (r, o) {
        (Ok(b), Ok(v)) => b@ == v,
        (Err(e), Err(f)) => e.url@ == url && e.error == f,
        _ => false,
    }
}

/// Two results that both match the outcome of one page agree: the same page
/// fetched from the same URL gives the same record, or the same error.
pub proof fn lemma_same_page_same_result(
    r1: Result<Book, RecordError>,
    r2: Result<Book, RecordError>,
    url: Seq<char>,
    o: Result<BookView, BookError>,
)
    requires
        record_matches(r1, url, o),
        record_matches(r2, url, o),
    ensures
        match (r1, r2) {
            (Ok(a), Ok(b)) => a@ == b@,
            (Err(a), Err(b)) => a.url@ == b.url@ && a.error == b.error,
            _ => false,
        },
{
}

} // verus!
