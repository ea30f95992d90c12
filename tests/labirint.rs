use book_parser::page::Extractor;
use book_parser::record::{BookError, Field, FieldError};
use book_parser::source::Sites;

const TEST_HTML: &str = r#"
<!DOCTYPE html>
<html>
<body>
    <div class="_left_u86in_12">
        <div>
            <div>Автор:</div>
            <div>Лев Толстой</div>
        </div>
    </div>
    <div class="_right_u86in_12">
        <div>Placeholder</div>
        <div>
            <div>ISBN Label</div>
            <div>978-5-17-123456-7</div>
        </div>
    </div>
    <h1 class="_h1_5o36c_18">Война и мир</h1>
</body>
</html>
"#;

const TEST_URL: &str = "https://www.labirint.ru/books/123456/";
const EXPECTED_TITLE: &str = "Война и мир";
const EXPECTED_AUTHOR: &str = "Лев Толстой";

fn parser() -> Extractor {
    Extractor::for_site(Sites::Labirint).expect("selectors compile")
}

fn create_test_context() -> &'static str {
    TEST_HTML
}

#[test]
fn test_parse_authors() {
    let parser = parser();
    let ctx = create_test_context();
    let result = parser.parse_authors(ctx);
    assert!(result.is_ok(), "parse_authors failed: {:?}", result.as_ref().err());
    let authors = result.unwrap();
    assert_eq!(authors.len(), 1);
    assert_eq!(authors[0].as_str(), EXPECTED_AUTHOR);
}

#[test]
fn test_parse_isbn() {
    let parser = parser();
    let ctx = create_test_context();
    let result = parser.parse_isbn(ctx);
    assert!(result.is_ok(), "parse_isbn failed: {:?}", result.as_ref().err());
    let isbn = result.unwrap();
    assert_eq!(isbn.as_str(), "978-5-17-123456-7");
}

#[test]
fn test_parse_title() {
    let parser = parser();
    let ctx = create_test_context();
    let result = parser.parse_title(ctx);
    assert!(result.is_ok());
    let title = result.unwrap();
    assert_eq!(title.as_str(), EXPECTED_TITLE);
}

#[test]
fn test_parse_isbn_not_found() {
    let parser = parser();
    let html = "<html><body></body></html>";
    let result = parser.parse_isbn(html);
    assert!(result.is_err());
}

#[test]
fn test_fetch_invalid_url() {
    let invalid_url = "https://www.labirint.ru/invalid/".to_string();
    assert!(!Sites::Labirint.accepts_url(&invalid_url));
    assert!(Sites::Labirint.accepts_url(TEST_URL));
}

#[test]
fn eksmo_parse_isbn_not_found() {
    let parser = Extractor::for_site(Sites::Eksmo).expect("selectors compile");
    let empty_ctx = "<html><body></body></html>";
    let res = parser.parse_isbn(empty_ctx);
    assert!(res.is_err());
}

#[test]
fn igraslov_parse_isbn_not_found() {
    let parser = Extractor::for_site(Sites::IgraSlov).expect("selectors compile");
    let html = "<html><body></body></html>";
    let res = parser.parse_isbn(html);
    assert_eq!(res.unwrap_err(), FieldError::Missing);
}

#[test]
fn labirint_whole_record_from_page() {
    let parser = parser();
    let book = parser
        .parse_book(TEST_URL.to_string(), TEST_HTML)
        .expect("record built");
    assert_eq!(book.site, Sites::Labirint);
    assert_eq!(book.source, TEST_URL);
    assert_eq!(book.authors.len(), 1);
    assert_eq!(book.authors[0].as_str(), EXPECTED_AUTHOR);
    assert_eq!(book.title.as_str(), EXPECTED_TITLE);
    assert_eq!(book.isbn.as_str(), "978-5-17-123456-7");
    assert!(book.description.is_none());
    assert!(book.price.is_none());
}

#[test]
fn labirint_record_fails_on_first_missing_field() {
    let parser = parser();
    let res = parser.parse_book(TEST_URL.to_string(), "<html><body></body></html>");
    let err = res.unwrap_err();
    assert_eq!(err.url, TEST_URL);
    assert_eq!(err.error, BookError::Field(Field::Authors, FieldError::Missing));
}

const IGRASLOV_HTML: &str = r#"
<html><body>
<h1 class="single-post-title">_Игра в слова </h1>
<table>
<tr class="woocommerce-product-attributes-item"><th>Автор</th><td><p><a href="/a">  Иван Петров </a></p></td></tr>
<tr class="woocommerce-product-attributes-item woocommerce-product-attributes-item--attribute_pa_isbn-issn-1"><th>ISBN</th><td><p>5-17-123456-X, 978-5-17-123456-7</p></td></tr>
</table>
<div class="woocommerce-product-details__short-description"><p>Короткое описание книги.</p></div>
<p class="price"><span><bdi>1,234&nbsp;₽</bdi></span></p>
</body></html>
"#;

#[test]
fn igraslov_record_with_price_and_description() {
    let parser = Extractor::for_site(Sites::IgraSlov).expect("selectors compile");
    let book = parser
        .parse_book("https://igraslov.store/product/x".to_string(), IGRASLOV_HTML)
        .expect("record built");
    assert_eq!(book.title.as_str(), "Игра в слова");
    assert_eq!(book.authors.len(), 1);
    assert_eq!(book.authors[0].as_str(), "Иван Петров");
    assert_eq!(book.isbn.as_str(), "978-5-17-123456-7");
    assert_eq!(book.description.as_ref().unwrap().as_str(), "Короткое описание книги.");
    assert_eq!(book.price.unwrap().amount(), 1234);
}

#[test]
fn same_page_same_record() {
    let parser = parser();
    let a = parser.parse_book(TEST_URL.to_string(), TEST_HTML).unwrap();
    let b = parser.parse_book(TEST_URL.to_string(), TEST_HTML).unwrap();
    assert_eq!(a, b);
    assert_eq!(parser.read_page(TEST_HTML), parser.read_page(TEST_HTML));
}

#[test]
fn igraslov_fields_one_by_one() {
    let parser = Extractor::for_site(Sites::IgraSlov).expect("selectors compile");
    assert_eq!(parser.parse_price(IGRASLOV_HTML).unwrap().amount(), 1234);
    assert_eq!(
        parser.parse_description(IGRASLOV_HTML).unwrap().as_str(),
        "Короткое описание книги."
    );
    let labirint = parser_for(Sites::Labirint);
    assert_eq!(labirint.parse_price(IGRASLOV_HTML), Err(FieldError::Missing));
    assert_eq!(labirint.parse_description(IGRASLOV_HTML), Err(FieldError::Missing));
}

fn parser_for(site: Sites) -> Extractor {
    Extractor::for_site(site).expect("selectors compile")
}

#[test]
fn price_with_plus_sign_on_page() {
    let parser = parser_for(Sites::IgraSlov);
    let page = IGRASLOV_HTML.replace("1,234&nbsp;₽", "+1");
    assert_eq!(parser.parse_price(&page).unwrap().amount(), 1);
}
