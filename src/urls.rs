//! Preparing the URL list of a run: which sitemap entries are book pages,
//! how many are taken from each bookstore, and the round-robin merge of the
//! bookstores' lists.
use vstd::prelude::*;

use crate::dom::{
    compile_selector, entry_views, first_child_comments, parse_page, select_first_child_comments,
    selector_parses,
};
use crate::fields::trimmed;
use crate::source::{contains_str, contains_text, Sites};
use crate::text::{remove_all, removed_all, string_views};

verus! {

/// `a` and `b` taken in turn, one item each, starting with `a`; once one of
/// them runs out the rest of the other follows.
pub open spec fn interleaved<T>(a: Seq<T>, b: Seq<T>) -> Seq<T>
    decreases a.len() + b.len(),
{
    if a.len() == 0 {
        b
    } else if b.len() == 0 {
        a
    } else {
        seq![a[0], b[0]] + interleaved(a.drop_first(), b.drop_first())
    }
}

proof fn lemma_interleaved_step<T>(a: Seq<T>, b: Seq<T>, i: int)
    requires
        0 <= i < a.len(),
        i < b.len(),
    ensures
        interleaved(a.subrange(i, a.len() as int), b.subrange(i, b.len() as int)) == seq![
            a[i],
            b[i],
        ] + interleaved(a.subrange(i + 1, a.len() as int), b.subrange(i + 1, b.len() as int)),
{
    let sa = a.subrange(i, a.len() as int);
    let sb = b.subrange(i, b.len() as int);
    assert(sa.drop_first() =~= a.subrange(i + 1, a.len() as int));
    assert(sb.drop_first() =~= b.subrange(i + 1, b.len() as int));
}

/// Merges two URL lists round-robin, starting with `a`.
pub fn interleave(a: &Vec<String>, b: &Vec<String>) -> (r: Vec<String>)
    ensures
        string_views(r@) == interleaved(string_views(a@), string_views(b@)),
{
    let ghost va = string_views(a@);
    let ghost vb = string_views(b@);
    let mut out: Vec<String> = Vec::new();
    let mut i: usize = 0;
    proof {
        assert(va.subrange(0, va.len() as int) =~= va);
        assert(vb.subrange(0, vb.len() as int) =~= vb);
        assert(string_views(out@) + interleaved(va, vb) =~= interleaved(va, vb));
    }
    while i < a.len() && i < b.len()
        invariant
            va == string_views(a@),
            vb == string_views(b@),
            i <= a.len(),
            i <= b.len(),
            string_views(out@) + interleaved(
                va.subrange(i as int, va.len() as int),
                vb.subrange(i as int, vb.len() as int),
            ) == interleaved(va, vb),
        decreases a.len() - i,
    {
        proof {
            lemma_interleaved_step(va, vb, i as int);
        }
        let ghost before = string_views(out@);
        out.push(a[i].clone());
        out.push(b[i].clone());
        proof {
            assert(string_views(out@) =~= before + seq![va[i as int], vb[i as int]]);
        }
        i = i + 1;
    }
    let ghost before = string_views(out@);
    let ghost ra = va.subrange(i as int, va.len() as int);
    let ghost rb = vb.subrange(i as int, vb.len() as int);
    let mut j: usize = i;
    while j < a.len()
        invariant
            va == string_views(a@),
            i <= j <= a.len(),
            string_views(out@) == before + va.subrange(i as int, j as int),
        decreases a.len() - j,
    {
        let ghost prev = string_views(out@);
        out.push(a[j].clone());
        proof {
            assert(string_views(out@) =~= prev.push(va[j as int]));
            assert(va.subrange(i as int, j + 1) =~= va.subrange(i as int, j as int).push(va[j as int]));
        }
        j = j + 1;
    }
    let ghost mid = string_views(out@);
    let mut k: usize = i;
    while k < b.len()
        invariant
            vb == string_views(b@),
            i <= k <= b.len(),
            string_views(out@) == mid + vb.subrange(i as int, k as int),
        decreases b.len() - k,
    {
        let ghost prev = string_views(out@);
        out.push(b[k].clone());
        proof {
            assert(string_views(out@) =~= prev.push(vb[k as int]));
            assert(vb.subrange(i as int, k + 1) =~= vb.subrange(i as int, k as int).push(vb[k as int]));
        }
        k = k + 1;
    }
    proof {
        if ra.len() == 0 {
            assert(interleaved(ra, rb) == rb);
            assert(va.subrange(i as int, j as int) =~= Seq::<Seq<char>>::empty());
            assert(string_views(out@) =~= before + rb);
        } else {
            assert(rb.len() == 0);
            assert(interleaved(ra, rb) == ra);
            assert(vb.subrange(i as int, k as int) =~= Seq::<Seq<char>>::empty());
            assert(string_views(out@) =~= before + ra);
        }
    }
    out
}

/// The Eksmo sitemaps that list book pages.
pub fn get_sitemaps_eksmo() -> (r: Vec<&'static str>)
    ensures
        r@ == seq![
            "https://eksmo.ru/sitemap/books1.xml",
            "https://eksmo.ru/sitemap/books2.xml",
            "https://eksmo.ru/sitemap/books3.xml",
            "https://eksmo.ru/sitemap/books4.xml",
            "https://eksmo.ru/sitemap/books5.xml",
            "https://eksmo.ru/sitemap/books6.xml",
            "https://eksmo.ru/sitemap/books7.xml",
            "https://eksmo.ru/sitemap/books8.xml",
        ],
{
    let r = vec![
        "https://eksmo.ru/sitemap/books1.xml",
        "https://eksmo.ru/sitemap/books2.xml",
        "https://eksmo.ru/sitemap/books3.xml",
        "https://eksmo.ru/sitemap/books4.xml",
        "https://eksmo.ru/sitemap/books5.xml",
        "https://eksmo.ru/sitemap/books6.xml",
        "https://eksmo.ru/sitemap/books7.xml",
        "https://eksmo.ru/sitemap/books8.xml",
    ];
    assert(r@ =~= seq![
        "https://eksmo.ru/sitemap/books1.xml",
        "https://eksmo.ru/sitemap/books2.xml",
        "https://eksmo.ru/sitemap/books3.xml",
        "https://eksmo.ru/sitemap/books4.xml",
        "https://eksmo.ru/sitemap/books5.xml",
        "https://eksmo.ru/sitemap/books6.xml",
        "https://eksmo.ru/sitemap/books7.xml",
        "https://eksmo.ru/sitemap/books8.xml",
    ]);
    r
}

/// A sitemap entry of `site` that is a book page: on Labirint a path under
/// `/books/`; on IgraSlov a product whose address names a cover type; on
/// Eksmo every entry of the book sitemaps.
pub open spec fn is_book_url_spec(site: Sites, url: Seq<char>) -> bool {
    match site {
        Sites::Labirint => contains_text(url, "/books/"@),
        Sites::IgraSlov => contains_text(url, "tvyord"@) || contains_text(url, "klap"@)
            || contains_text(url, "myagk"@) || contains_text(url, "super"@),
        Sites::Eksmo => true,
    }
}

pub fn is_book_url(site: Sites, url: &str) -> (r: bool)
    ensures
        r == is_book_url_spec(site, url@),
{
    match site {
        Sites::Labirint => contains_str(url, "/books/"),
        Sites::IgraSlov => contains_str(url, "tvyord") || contains_str(url, "klap") || contains_str(
            url,
            "myagk",
        ) || contains_str(url, "super"),
        Sites::Eksmo => true,
    }
}

/// The book pages among `urls`, in order, at most `max` of them.
pub open spec fn book_urls_spec(site: Sites, urls: Seq<Seq<char>>, max: nat) -> Seq<Seq<char>>
    decreases urls.len(),
{
    if urls.len() == 0 {
        Seq::empty()
    } else {
        let init = book_urls_spec(site, urls.drop_last(), max);
        if is_book_url_spec(site, urls.last()) && init.len() < max {
            init.push(urls.last())
        } else {
            init
        }
    }
}

/// Keeps the first `max` book pages of a bookstore's sitemap entries.
pub fn select_book_urls(site: Sites, urls: &Vec<String>, max: usize) -> (r: Vec<String>)
    ensures
        string_views(r@) == book_urls_spec(site, string_views(urls@), max as nat),
{
    let ghost v = string_views(urls@);
    let mut out: Vec<String> = Vec::new();
    let mut k: usize = 0;
    while k < urls.len()
        invariant
            v == string_views(urls@),
            k <= urls.len(),
            string_views(out@) == book_urls_spec(site, v.take(k as int), max as nat),
            out@.len() <= max,
        decreases urls.len() - k,
    {
        proof {
            assert(v.take(k as int + 1).drop_last() =~= v.take(k as int));
        }
        if out.len() < max && is_book_url(site, urls[k].as_str()) {
            let ghost before = string_views(out@);
            out.push(urls[k].clone());
            proof {
                assert(string_views(out@) =~= before.push(v[k as int]));
            }
        }
        k = k + 1;
    }
    proof {
        assert(v.take(v.len() as int) =~= v);
    }
    out
}

/// The address held by an IgraSlov sitemap entry, written there as
/// `[CDATA[address]]`: every `[CDATA[` and `]]` removed, the rest trimmed.
pub open spec fn loc_address(raw: Seq<char>) -> Seq<char> {
    trimmed(removed_all(removed_all(raw, "[CDATA["@), "]]"@))
}

/// Reads the address of an IgraSlov sitemap entry.
pub fn sitemap_loc_url(raw: &str) -> (r: String)
    ensures
        r@ == loc_address(raw@),
{
    let a = remove_all(raw, "[CDATA[");
    let b = remove_all(a.as_str(), "]]");
    crate::fields::trim_text(b.as_str()).to_owned()
}

#[derive(Debug, Clone, Copy, PartialEq, Eq)]
pub enum SitemapError {
    /// The `loc` selector does not compile.
    BadSelector,
    /// A `loc` element starts with something other than a comment.
    NotComment,
}

/// The addresses of a sitemap's entries, read from the first child of each
/// `loc` element: an element without children is skipped, one whose first
/// child is not a comment makes the whole sitemap unreadable (`None`).
pub open spec fn loc_urls(entries: Seq<Option<Option<Seq<char>>>>) -> Option<Seq<Seq<char>>>
    decreases entries.len(),
{
    if entries.len() == 0 {
        Some(Seq::empty())
    } else {
        match loc_urls(entries.drop_last()) {
            None => None,
            Some(v) => match entries.last() {
                None => Some(v),
                Some(None) => None,
                Some(Some(t)) => Some(v.push(loc_address(t))),
            },
        }
    }
}

proof fn lemma_loc_urls_none_extends(e: Seq<Option<Option<Seq<char>>>>, k: int)
    requires
        0 <= k <= e.len(),
        loc_urls(e.take(k)) is None,
    ensures
        loc_urls(e) is None,
    decreases e.len() - k,
{
    if k == e.len() {
        assert(e.take(k) =~= e);
    } else {
        assert(e.take(k + 1).drop_last() =~= e.take(k));
        lemma_loc_urls_none_extends(e, k + 1);
    }
}

/// Reads the page addresses of an IgraSlov sitemap, whose entries hold their
/// address in a CDATA section that the HTML parser takes for a comment.
pub fn igraslov_sitemap_urls(body: &str) -> (r: Result<Vec<String>, SitemapError>)
    ensures
        !selector_parses("loc"@) ==> r == Err::<Vec<String>, SitemapError>(
            SitemapError::BadSelector,
        ),
        selector_parses("loc"@) ==> match loc_urls(first_child_comments(body@, "loc"@)) {
            Some(v) => r matches Ok(u) && string_views(u@) == v,
            None => r == Err::<Vec<String>, SitemapError>(SitemapError::NotComment),
        },
{
    let sel = match compile_selector("loc") {
        Some(s) => s,
        None => return Err(SitemapError::BadSelector),
    };
    let page = parse_page(body);
    let entries = select_first_child_comments(&page, &sel);
    let ghost e = entry_views(entries@);
    let mut out: Vec<String> = Vec::new();
    let mut k: usize = 0;
    while k < entries.len()
        invariant
            e == entry_views(entries@),
            e == first_child_comments(body@, "loc"@),
            selector_parses("loc"@),
            k <= entries.len(),
            loc_urls(e.take(k as int)) == Some(string_views(out@)),
        decreases entries.len() - k,
    {
        proof {
            assert(e.take(k as int + 1).drop_last() =~= e.take(k as int));
            assert(e.take(k as int + 1).last() == e[k as int]);
        }
        match &entries[k] {
            None => {},
            Some(None) => {
                proof {
                    lemma_loc_urls_none_extends(e, k as int + 1);
                }
                return Err(SitemapError::NotComment);
            },
            Some(Some(t)) => {
                let ghost before = string_views(out@);
                out.push(sitemap_loc_url(t.as_str()));
                proof {
                    assert(string_views(out@) =~= before.push(loc_address(t@)));
                }
            },
        }
        k = k + 1;
    }
    proof {
        assert(e.take(e.len() as int) =~= e);
    }
    Ok(out)
}

} // verus!
