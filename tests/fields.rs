use book_parser::fields::{Author, Description, Isbn, IsbnError, Price, PriceError, Title};

#[test]
fn isbn_valid_thirteen_keeps_text_as_given() {
    let isbn = Isbn::new("978-0-13-468599-1".to_string()).expect("valid");
    assert_eq!(isbn.as_str(), "978-0-13-468599-1");
}

#[test]
fn isbn_valid_ten_with_spaces() {
    let isbn = Isbn::new("0 13 468599 1".to_string()).expect("valid");
    assert_eq!(isbn.as_str(), "0 13 468599 1");
}

#[test]
fn isbn_rejects_wrong_digit_counts() {
    assert_eq!(Isbn::new("978-0-13-46859".to_string()), Err(IsbnError::Invalid));
    assert_eq!(Isbn::new("12345678901".to_string()), Err(IsbnError::Invalid));
    assert_eq!(Isbn::new("123456789012".to_string()), Err(IsbnError::Invalid));
    assert_eq!(Isbn::new("".to_string()), Err(IsbnError::Invalid));
    assert_eq!(Isbn::new("97801346859912".to_string()), Err(IsbnError::Invalid));
}

#[test]
fn isbn_rejects_non_digits() {
    assert_eq!(Isbn::new("0-13-468599-X".to_string()), Err(IsbnError::Invalid));
    assert_eq!(Isbn::new("\t0134685991".to_string()), Err(IsbnError::Invalid));
}

#[test]
fn extract_prefers_thirteen_digits_in_either_order() {
    let a = Isbn::parse("0134685991, 978-0-13-468599-1".to_string()).unwrap();
    assert_eq!(a, "978-0-13-468599-1");
    let b = Isbn::parse("978-0-13-468599-1; 0134685991".to_string()).unwrap();
    assert_eq!(b, "978-0-13-468599-1");
}

#[test]
fn extract_takes_first_of_two_thirteen_digit_tokens() {
    // "979-0000000000" has 13 digits too, so it comes first.
    let a = Isbn::parse("979-0000000000, 978-0-13-468599-1".to_string()).unwrap();
    assert_eq!(a, "979-0000000000");
    let b = Isbn::parse("978-0-13-468599-1, 979-0000000000".to_string()).unwrap();
    assert_eq!(b, "978-0-13-468599-1");
}

#[test]
fn extract_falls_back_to_last_token() {
    let a = Isbn::parse(" 5-17-1, 0134685991 ;".to_string()).unwrap();
    assert_eq!(a, "0134685991");
}

#[test]
fn extract_without_candidates() {
    assert_eq!(Isbn::parse(" , ;  ".to_string()), Err(IsbnError::NoCandidate));
    assert_eq!(Isbn::extract("".to_string()), Err(IsbnError::NoCandidate));
}

#[test]
fn extract_validates_choice() {
    let isbn = Isbn::extract("ISBN 978-5-04-156838-2".to_string());
    assert_eq!(isbn, Err(IsbnError::Invalid));
    let isbn = Isbn::extract(" 978-5-04-156838-2 ".to_string()).unwrap();
    assert_eq!(isbn.as_str(), "978-5-04-156838-2");
}

#[test]
fn digit_13_counts_digits_only() {
    assert!(Isbn::is_digit_13("978-5-04-156838-2"));
    assert!(!Isbn::is_digit_13("0-13-468599-1"));
    assert!(Isbn::is_digit_13("ISBN: 9785041568382"));
}

#[test]
fn author_and_title_are_trimmed() {
    assert_eq!(Author::new("  Андрей Самарин \n".to_string()).as_str(), "Андрей Самарин");
    assert_eq!(Title::new("\tВойна и мир ".to_string()).as_str(), "Война и мир");
    assert_eq!(Author::new("   ".to_string()).as_str(), "");
    assert_eq!(Description::new(" text\n".to_string()).as_str(), "text");
}

#[test]
fn price_strips_glyphs() {
    assert_eq!(Price::parse("1,234\u{a0}₽").unwrap().amount(), 1234);
    assert_eq!(Price::parse("89500").unwrap().amount(), 89500);
    assert_eq!(Price::parse("0").unwrap().amount(), 0);
}

#[test]
fn price_rejects_non_numeric() {
    assert_eq!(Price::parse("12.50"), Err(PriceError::InvalidPrice));
    assert_eq!(Price::parse("₽"), Err(PriceError::InvalidPrice));
    assert_eq!(Price::parse(""), Err(PriceError::InvalidPrice));
    assert_eq!(Price::parse("-5"), Err(PriceError::InvalidPrice));
}

#[test]
fn price_largest_and_overflow() {
    let max = u128::MAX.to_string();
    assert_eq!(Price::parse(&max).unwrap().amount(), u128::MAX);
    let over = "340282366920938463463374607431768211456";
    assert_eq!(Price::parse(over), Err(PriceError::InvalidPrice));
}

#[test]
fn price_new_reads_digits() {
    assert_eq!(Price::new("89500".to_string()).amount(), 89500);
}

#[test]
fn price_conversions() {
    let p = Price::from(89500u128);
    assert_eq!(p.amount(), 89500);
    assert_eq!(u128::from(p), 89500);
}

#[test]
fn price_accepts_one_leading_plus() {
    assert_eq!(Price::parse("+1").unwrap().amount(), 1);
    assert_eq!(Price::parse("+1,000\u{a0}₽").unwrap().amount(), 1000);
    assert_eq!(Price::new("+42".to_string()).amount(), 42);
    assert_eq!(Price::parse("+"), Err(PriceError::InvalidPrice));
    assert_eq!(Price::parse("++1"), Err(PriceError::InvalidPrice));
    assert_eq!(Price::parse("1+"), Err(PriceError::InvalidPrice));
}

#[test]
fn trim_uses_unicode_white_space() {
    assert_eq!(Author::new("\u{a0}\u{3000} Имя \u{2009}\n".to_string()).as_str(), "Имя");
    assert_eq!(Title::new("\u{200b}x".to_string()).as_str(), "\u{200b}x");
    assert_eq!(Title::new("a b".to_string()).as_str(), "a b");
}
