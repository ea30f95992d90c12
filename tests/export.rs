use book_parser::cli::{parse_args, ArgumentError, RunConfig};
use book_parser::export::{csv_row, headers, join_authors, split_authors};
use book_parser::fields::{Author, Isbn, Title};
use book_parser::record::Book;
use book_parser::source::Sites;
use book_parser::text::remove_all;
use book_parser::urls::{
    get_sitemaps_eksmo, igraslov_sitemap_urls, interleave, is_book_url, select_book_urls,
    sitemap_loc_url, SitemapError,
};

fn book(authors: &[&str]) -> Book {
    Book {
        site: Sites::Labirint,
        source: "https://www.labirint.ru/books/1/".to_string(),
        authors: authors.iter().map(|a| Author::new(a.to_string())).collect(),
        isbn: Isbn::new("978-0-13-468599-1".to_string()).unwrap(),
        title: Title::new("Title".to_string()),
        description: None,
        price: None,
    }
}

#[test]
fn authors_round_trip() {
    let b = book(&["A. One", "B. Two"]);
    let joined = join_authors(&b);
    assert_eq!(joined, "A. One; B. Two");
    assert_eq!(split_authors(&joined), vec!["A. One".to_string(), "B. Two".to_string()]);
}

#[test]
fn authors_single_and_empty() {
    assert_eq!(join_authors(&book(&["Solo"])), "Solo");
    assert_eq!(join_authors(&book(&[])), "");
    assert_eq!(split_authors(""), vec!["".to_string()]);
    assert_eq!(split_authors("a;b; ; c"), vec!["a;b".to_string(), "".to_string(), "c".to_string()]);
}

#[test]
fn export_row() {
    let b = book(&["A. One", "B. Two"]);
    assert_eq!(headers(), vec!["site", "source", "isbn", "title", "authors"]);
    assert_eq!(
        csv_row(&b),
        vec![
            "labirint".to_string(),
            "https://www.labirint.ru/books/1/".to_string(),
            "978-0-13-468599-1".to_string(),
            "Title".to_string(),
            "A. One; B. Two".to_string(),
        ]
    );
}

#[test]
fn round_robin_merge() {
    let a: Vec<String> = ["a0", "a1", "a2"].iter().map(|s| s.to_string()).collect();
    let b: Vec<String> = ["b0"].iter().map(|s| s.to_string()).collect();
    assert_eq!(interleave(&a, &b), vec!["a0", "b0", "a1", "a2"]);
    assert_eq!(interleave(&b, &a), vec!["b0", "a0", "a1", "a2"]);
    assert_eq!(interleave(&Vec::new(), &b), vec!["b0"]);
}

#[test]
fn eksmo_sitemaps() {
    let maps = get_sitemaps_eksmo();
    assert_eq!(maps.len(), 8);
    assert_eq!(maps[0], "https://eksmo.ru/sitemap/books1.xml");
    assert_eq!(maps[7], "https://eksmo.ru/sitemap/books8.xml");
}

#[test]
fn book_url_filters() {
    assert!(is_book_url(Sites::Labirint, "https://www.labirint.ru/books/5/"));
    assert!(!is_book_url(Sites::Labirint, "https://www.labirint.ru/games/5/"));
    assert!(is_book_url(Sites::IgraSlov, "https://igraslov.store/product/kniga-tvyord/"));
    assert!(!is_book_url(Sites::IgraSlov, "https://igraslov.store/product/igra/"));
    let urls: Vec<String> = [
        "https://www.labirint.ru/books/1/",
        "https://www.labirint.ru/games/2/",
        "https://www.labirint.ru/books/3/",
        "https://www.labirint.ru/books/4/",
    ]
    .iter()
    .map(|s| s.to_string())
    .collect();
    assert_eq!(
        select_book_urls(Sites::Labirint, &urls, 2),
        vec!["https://www.labirint.ru/books/1/", "https://www.labirint.ru/books/3/"]
    );
}

#[test]
fn sitemap_entry_address() {
    assert_eq!(
        sitemap_loc_url("[CDATA[ https://igraslov.store/product/x-tvyord/ ]]"),
        "https://igraslov.store/product/x-tvyord/"
    );
    assert_eq!(sitemap_loc_url("https://a/b"), "https://a/b");
    assert_eq!(sitemap_loc_url("x]][CDATA[y[CDATA[]]"), "xy");
}

#[test]
fn command_line() {
    let none: Vec<String> = Vec::new();
    assert_eq!(parse_args(&none), Ok(RunConfig { concurrency: 3, per_source: 1500 }));
    let two = vec!["2".to_string(), "10".to_string()];
    assert_eq!(parse_args(&two), Ok(RunConfig { concurrency: 2, per_source: 10 }));
    assert_eq!(parse_args(&vec!["0".to_string()]), Err(ArgumentError::BelowOne(0)));
    assert_eq!(parse_args(&vec!["x".to_string()]), Err(ArgumentError::NotANumber(0)));
    assert_eq!(
        parse_args(&vec!["1".to_string(), "-3".to_string()]),
        Err(ArgumentError::NotANumber(1))
    );
    let three = vec!["1".to_string(), "1".to_string(), "1".to_string()];
    assert_eq!(parse_args(&three), Err(ArgumentError::TooMany));
}

#[test]
fn remove_every_occurrence() {
    assert_eq!(remove_all("a--b--c", "--"), "abc");
    assert_eq!(remove_all("aaa", "aa"), "a");
    assert_eq!(remove_all("abc", ""), "abc");
    assert_eq!(remove_all("", "x"), "");
}

#[test]
fn igraslov_sitemap_entries() {
    let body = "<urlset><url><loc><![CDATA[ https://igraslov.store/product/a-tvyord/ ]]></loc></url>\
                <url><loc><![CDATA[https://igraslov.store/product/b/]]></loc></url><url><loc></loc></url></urlset>";
    let urls = igraslov_sitemap_urls(body).unwrap();
    assert_eq!(
        urls,
        vec!["https://igraslov.store/product/a-tvyord/", "https://igraslov.store/product/b/"]
    );
    assert_eq!(
        select_book_urls(Sites::IgraSlov, &urls, 10),
        vec!["https://igraslov.store/product/a-tvyord/"]
    );
    assert_eq!(
        igraslov_sitemap_urls("<urlset><url><loc>plain</loc></url></urlset>"),
        Err(SitemapError::NotComment)
    );
}

#[test]
fn command_line_plus_sign() {
    let args = vec!["+2".to_string()];
    assert_eq!(parse_args(&args), Ok(RunConfig { concurrency: 2, per_source: 1500 }));
}
