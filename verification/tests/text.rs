use sitemap_rs::text::{byte_len, decimal_string, join, precedes, sorted_unique};

fn strings(items: &[&str]) -> Vec<String> {
    items.iter().map(|item| item.to_string()).collect()
}

#[test]
fn decimal_string_writes_numbers() {
    assert_eq!(decimal_string(0), "0");
    for (digit, text) in ["0", "1", "2", "3", "4", "5", "6", "7", "8", "9"].iter().enumerate() {
        assert_eq!(decimal_string(digit as u128), *text);
    }
    assert_eq!(decimal_string(10), "10");
    assert_eq!(decimal_string(28800), "28800");
    assert_eq!(decimal_string(50_001), "50001");
    assert_eq!(decimal_string(u64::MAX as u128), "18446744073709551615");
    assert_eq!(decimal_string(u128::MAX), "340282366920938463463374607431768211455");
}

#[test]
fn join_puts_the_separator_between_neighbours() {
    assert_eq!(join(&strings(&[]), " "), "");
    assert_eq!(join(&strings(&["CA"]), " "), "CA");
    assert_eq!(join(&strings(&["CA", "GB", "IE", "US"]), " "), "CA GB IE US");
    assert_eq!(join(&strings(&["a", "", "b"]), ", "), "a, , b");
}

#[test]
fn byte_len_counts_bytes() {
    assert_eq!(byte_len(""), 0);
    assert_eq!(byte_len("abc"), 3);
    assert_eq!(byte_len("é"), 2);
    assert_eq!(byte_len("日本"), 6);
}

#[test]
fn precedes_is_the_order_of_strings() {
    let samples = ["", "A", "CA", "CAN", "GB", "IE", "US", "a", "ab", "b", "é", "日本", "😀"];
    for a in samples {
        for b in samples {
            assert_eq!(precedes(a, b), a < b, "{a:?} {b:?}");
        }
    }
}

#[test]
fn sorted_unique_orders_and_keeps_each_once() {
    assert_eq!(sorted_unique(&strings(&[])), strings(&[]));
    assert_eq!(
        sorted_unique(&strings(&["IE", "GB", "US", "CA"])),
        strings(&["CA", "GB", "IE", "US"])
    );
    assert_eq!(
        sorted_unique(&strings(&["US", "IE", "US", "GB", "IE", "US"])),
        strings(&["GB", "IE", "US"])
    );
    assert_eq!(sorted_unique(&strings(&["b", "a", "", "ab"])), strings(&["", "a", "ab", "b"]));
}
