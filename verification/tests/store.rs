use url_shortener::store::{
    allocated_index, index_of_key, short_url, store_key, stored_url, ShortUrl, Status,
};

#[test]
fn first_allocation_is_zero() {
    assert_eq!(allocated_index(None), 0);
}

#[test]
fn allocation_reads_the_counter() {
    assert_eq!(allocated_index(Some(Status { last_index: 41 })), 41);
    assert_eq!(allocated_index(Some(Status { last_index: 42 })), 42);
}

#[test]
fn short_url_holds_index_and_destination() {
    let link = short_url(5, "https://example.com");
    assert_eq!(link.index, 5);
    assert_eq!(link.url, "https://example.com");
}

#[test]
fn stored_url_takes_the_destination() {
    let link = ShortUrl { index: 9, url: "https://example.com/x".to_string() };
    assert_eq!(stored_url(Some(link)), Some("https://example.com/x".to_string()));
    assert_eq!(stored_url(None), None);
}

#[test]
fn store_key_keeps_the_number() {
    assert_eq!(store_key(0), Some(0));
    assert_eq!(store_key(i64::MAX as u64), Some(i64::MAX));
    assert_eq!(store_key(i64::MAX as u64 + 1), None);
    assert_eq!(store_key(u64::MAX), None);
}

#[test]
fn index_of_key_refuses_negative_keys() {
    assert_eq!(index_of_key(0), Some(0));
    assert_eq!(index_of_key(77), Some(77));
    assert_eq!(index_of_key(i64::MAX), Some(i64::MAX as u64));
    assert_eq!(index_of_key(-1), None);
    assert_eq!(index_of_key(i64::MIN), None);
}
