use pagination::{decimal_string, PaginationParams};

#[test]
fn next_page_url_of_the_second_page() {
    let p = PaginationParams::from_query(Some(2), Some(10), 25);
    assert!(p.has_next);
    assert_eq!(p.next_page_url("/items"), "/items?page=3&limit=10");
}

#[test]
fn prev_page_url_is_empty_on_the_first_page() {
    let p = PaginationParams::from_query(Some(1), Some(10), 25);
    assert!(!p.has_prev);
    assert_eq!(p.prev_page_url("/items"), "");
}

#[test]
fn prev_page_url_of_the_second_page() {
    let p = PaginationParams::from_query(Some(2), Some(10), 25);
    assert_eq!(p.prev_page_url("/items"), "/items?page=1&limit=10");
}

#[test]
fn next_page_url_is_empty_on_the_last_page() {
    let p = PaginationParams::from_query(Some(3), Some(10), 25);
    assert_eq!(p.next_page_url("/items"), "");
}

#[test]
fn first_and_last_page_urls() {
    let p = PaginationParams::from_query(Some(2), Some(10), 25);
    assert_eq!(p.first_page_url("/items"), "/items?page=1&limit=10");
    assert_eq!(p.last_page_url("/items"), "/items?page=3&limit=10");
}

#[test]
fn current_page_url_ignores_the_flags() {
    let p = PaginationParams::from_query(Some(4), Some(25), 0);
    assert_eq!(p.current_page_url("/items"), "/items?page=4&limit=25");
    assert_eq!(p.first_page_url("/items"), "");
    assert_eq!(p.last_page_url("/items"), "");
    assert_eq!(p.next_page_url("/items"), "");
    assert_eq!(p.prev_page_url("/items"), "/items?page=3&limit=25");
}

#[test]
fn urls_take_the_base_as_it_is() {
    let p = PaginationParams::from_query(Some(1), Some(100), 1000);
    assert_eq!(p.next_page_url(""), "?page=2&limit=100");
    assert_eq!(
        p.next_page_url("https://example.org/a b?x=1"),
        "https://example.org/a b?x=1?page=2&limit=100"
    );
    assert_eq!(p.current_page_url("/caf\u{e9}"), "/caf\u{e9}?page=1&limit=100");
}

#[test]
fn urls_of_large_pages() {
    let p = PaginationParams::from_query(Some(u32::MAX - 1), Some(1), u64::MAX);
    assert_eq!(p.next_page_url("/i"), "/i?page=4294967295&limit=1");
    assert_eq!(p.last_page_url("/i"), "/i?page=18446744073709551615&limit=1");
    let q = PaginationParams::from_query(Some(u32::MAX), Some(1), u64::MAX);
    assert_eq!(q.next_page_url("/i"), "/i?page=4294967296&limit=1");
    assert_eq!(q.prev_page_url("/i"), "/i?page=4294967294&limit=1");
}

#[test]
fn next_page_url_follows_the_flag_of_a_hand_made_descriptor() {
    let p = PaginationParams {
        page: 2,
        limit: 10,
        offset: 10,
        total: 25,
        total_pages: 3,
        has_next: true,
        has_prev: false,
        has_first: true,
        has_last: true,
    };
    assert_eq!(p.next_page_url("/items"), "/items?page=3&limit=10");
    assert_eq!(p.prev_page_url("/items"), "");
}

#[test]
fn decimal_string_of_small_and_large_numbers() {
    assert_eq!(decimal_string(0), "0");
    assert_eq!(decimal_string(7), "7");
    assert_eq!(decimal_string(9), "9");
    assert_eq!(decimal_string(10), "10");
    assert_eq!(decimal_string(1234567890), "1234567890");
    assert_eq!(decimal_string(100), "100");
    assert_eq!(decimal_string(u64::MAX), "18446744073709551615");
}

#[test]
fn decimal_string_agrees_with_the_standard_rendering() {
    for n in 0u64..2000 {
        assert_eq!(decimal_string(n), format!("{}", n));
    }
}
