use book_parser::scheduler::{Dispatch, Scheduler};
use book_parser::source::{contains_str, dispatch, Sites};

fn urls(list: &[&str]) -> Vec<String> {
    list.iter().map(|s| s.to_string()).collect()
}

#[test]
fn dispatch_by_host_fragment() {
    assert_eq!(dispatch("https://www.labirint.ru/books/1/"), Some(Sites::Labirint));
    assert_eq!(dispatch("https://igraslov.store/product/x"), Some(Sites::IgraSlov));
    assert_eq!(dispatch("https://eksmo.ru/book/y"), Some(Sites::Eksmo));
    assert_eq!(dispatch("https://example.com/book"), None);
    assert_eq!(dispatch(""), None);
}

#[test]
fn substring_search() {
    assert!(contains_str("abcabd", "abd"));
    assert!(!contains_str("abcab", "abd"));
    assert!(contains_str("x", ""));
    assert!(!contains_str("", "a"));
}

#[test]
fn site_names() {
    assert_eq!(Sites::Labirint.name(), "labirint");
    assert_eq!(Sites::IgraSlov.name(), "igra_slov");
    assert_eq!(Sites::Eksmo.name(), "eksmo");
}

#[test]
fn five_urls_two_at_a_time_one_unknown() {
    let list = urls(&[
        "https://igraslov.store/product/a",
        "https://www.labirint.ru/books/1/",
        "https://unknown.example/book",
        "https://eksmo.ru/book/b",
        "https://www.labirint.ru/books/2/",
    ]);
    let mut s = Scheduler::new(list, 2);
    let mut in_flight: Vec<usize> = Vec::new();
    let mut started: Vec<usize> = Vec::new();
    let mut max_seen = 0;
    loop {
        match s.next_task() {
            Dispatch::Start { index, site } => {
                assert_eq!(dispatch(s.url(index)), Some(site));
                in_flight.push(index);
                started.push(index);
                max_seen = max_seen.max(in_flight.len());
                assert!(in_flight.len() <= 2);
            }
            Dispatch::Full | Dispatch::Exhausted => {
                if in_flight.is_empty() {
                    break;
                }
                // Complete the oldest task; even indices fail.
                let done = in_flight.remove(0);
                s.complete(done % 2 == 1);
            }
        }
    }
    assert!(s.is_done());
    assert_eq!(max_seen, 2);
    assert_eq!(started, vec![0, 1, 3, 4]);
    let summary = s.summary();
    assert_eq!(summary.unknown_source, 1);
    assert_eq!(summary.dispatched, 4);
    assert_eq!(summary.successes, 2);
    assert_eq!(summary.failures, 3);
    assert_eq!(s.completed(), 5);
}

#[test]
fn every_url_unknown_still_tallies() {
    let mut s = Scheduler::new(urls(&["a", "b", "c"]), 1);
    assert_eq!(s.next_task(), Dispatch::Exhausted);
    assert!(s.is_done());
    let summary = s.summary();
    assert_eq!(summary.failures, 3);
    assert_eq!(summary.unknown_source, 3);
    assert_eq!(summary.dispatched, 0);
}

#[test]
fn duplicates_are_dispatched_each_time() {
    let mut s = Scheduler::new(urls(&["https://eksmo.ru/b", "https://eksmo.ru/b"]), 1);
    assert_eq!(s.next_task(), Dispatch::Start { index: 0, site: Sites::Eksmo });
    assert_eq!(s.next_task(), Dispatch::Full);
    s.complete(true);
    assert_eq!(s.next_task(), Dispatch::Start { index: 1, site: Sites::Eksmo });
    s.complete(true);
    assert_eq!(s.next_task(), Dispatch::Exhausted);
    assert_eq!(s.summary().successes, 2);
}

#[test]
fn empty_run() {
    let mut s = Scheduler::new(Vec::new(), 3);
    assert_eq!(s.next_task(), Dispatch::Exhausted);
    assert!(s.is_done());
    assert_eq!(s.completed(), 0);
}
